//! Provisioning: a user joins the origin channel of a template and gets a
//! room of their own.
//!
//! The room is created under the template's category, the user is made its
//! owner and moved into it, and the room is recorded as monitored. A failed
//! grant is answered by deleting the room again. A failed move is put up
//! with. A failed record leaves a room on the platform that no row knows of;
//! the category sweep finds it later.

use crate::bitrate::{bitrate_of, get_bitrate, PremiumTier};
use crate::gateway::{
    request_view, response_view, ErrorKind, Request, RequestView, Response, ResponseView,
};
use crate::permissions::{grant_owner_privileges, OWNER_ALLOW};
use crate::records::{AutoRoom, MonitoredAutoRoom};
use vstd::prelude::*;
use vstd::string::StringExecFns;

verus! {

/// A member joined a voice channel.
#[derive(Debug)]
pub struct JoinEvent {
    pub channel_id: i64,
    pub guild_id: i64,
    pub user_id: i64,
    pub user_name: String,
    pub premium_tier: PremiumTier,
}

/// A [`JoinEvent`] as mathematical values.
pub struct JoinEventView {
    pub channel_id: i64,
    pub guild_id: i64,
    pub user_id: i64,
    pub user_name: Seq<char>,
    pub premium_tier: PremiumTier,
}

impl View for JoinEvent {
    type V = JoinEventView;

    open spec fn view(&self) -> JoinEventView {
        JoinEventView {
            channel_id: self.channel_id,
            guild_id: self.guild_id,
            user_id: self.user_id,
            user_name: self.user_name@,
            premium_tier: self.premium_tier,
        }
    }
}

/// How provisioning ended.
#[derive(Clone, Copy, Debug, PartialEq, Eq, Structural)]
pub enum ProvisionOutcome {
    /// The channel joined is no template's origin: nothing was done.
    Ignored,
    /// `room` exists, `owner` owns it, and it is recorded as monitored.
    /// `moved` tells whether the owner could be moved into it.
    Provisioned { room: i64, owner: i64, moved: bool },
    /// Provisioning was given up.
    Failed(ErrorKind),
}

/// Where provisioning stands.
#[derive(Debug)]
pub enum ProvisionState {
    /// Nothing has been asked yet.
    Start(JoinEvent),
    /// The template of the joined channel was asked for.
    FindingTemplate(JoinEvent),
    /// The creation of the room was asked for.
    Creating { guild_id: i64, user_id: i64 },
    /// The owner's access to `room` was asked for.
    Granting { guild_id: i64, user_id: i64, room: i64 },
    /// The grant failed, and the deletion of `room` was asked for.
    Compensating { room: i64 },
    /// The move of the owner into `room` was asked for.
    Moving { user_id: i64, room: i64 },
    /// The record of `room` was asked for.
    Recording { user_id: i64, room: i64, moved: bool },
    /// Provisioning is over.
    Finished(ProvisionOutcome),
}

/// A [`ProvisionState`] as mathematical values.
pub enum ProvisionStateView {
    Start(JoinEventView),
    FindingTemplate(JoinEventView),
    Creating { guild_id: i64, user_id: i64 },
    Granting { guild_id: i64, user_id: i64, room: i64 },
    Compensating { room: i64 },
    Moving { user_id: i64, room: i64 },
    Recording { user_id: i64, room: i64, moved: bool },
    Finished(ProvisionOutcome),
}

impl View for ProvisionState {
    type V = ProvisionStateView;

    open spec fn view(&self) -> ProvisionStateView {
        match self {
            ProvisionState::Start(event) => ProvisionStateView::Start(event@),
            ProvisionState::FindingTemplate(event) => ProvisionStateView::FindingTemplate(event@),
            ProvisionState::Creating { guild_id, user_id } => ProvisionStateView::Creating {
                guild_id: *guild_id,
                user_id: *user_id,
            },
            ProvisionState::Granting { guild_id, user_id, room } => ProvisionStateView::Granting {
                guild_id: *guild_id,
                user_id: *user_id,
                room: *room,
            },
            ProvisionState::Compensating { room } => ProvisionStateView::Compensating {
                room: *room,
            },
            ProvisionState::Moving { user_id, room } => ProvisionStateView::Moving {
                user_id: *user_id,
                room: *room,
            },
            ProvisionState::Recording { user_id, room, moved } => ProvisionStateView::Recording {
                user_id: *user_id,
                room: *room,
                moved: *moved,
            },
            ProvisionState::Finished(outcome) => ProvisionStateView::Finished(*outcome),
        }
    }
}

/// What joins the user's name and the template's suffix in a room's name.
pub open spec fn possessive() -> Seq<char> {
    "'s "@
}

/// The name of the room of `user_name` under a template with `suffix`: the
/// user's name, an apostrophe and an s, a blank, the suffix.
pub open spec fn room_name_of(user_name: Seq<char>, suffix: Seq<char>) -> Seq<char> {
    user_name + possessive() + suffix
}

/// The name of the room of `user_name` under a template with `suffix`.
pub fn room_name(user_name: &String, suffix: &String) -> (name: String)
    ensures
        name@ == room_name_of(user_name@, suffix@),
{
    let mut name = user_name.clone();
    name.append("'s ");
    name.append(suffix.as_str());
    name
}

/// The step that provisioning takes in `state` on `answer`: the state it
/// goes to, and what it asks next, if anything.
pub open spec fn provision_next(state: ProvisionStateView, answer: Option<ResponseView>) -> (
    ProvisionStateView,
    Option<RequestView>,
) {
    match state {
        ProvisionStateView::Start(event) => (
            ProvisionStateView::FindingTemplate(event),
            Some(RequestView::FindTemplate { channel_id: event.channel_id }),
        ),
        ProvisionStateView::FindingTemplate(event) => match answer {
            Some(ResponseView::Template(Some(template))) => (
                ProvisionStateView::Creating { guild_id: event.guild_id, user_id: event.user_id },
                Some(
                    RequestView::CreateVoiceChannel {
                        guild_id: event.guild_id,
                        category_id: template.category_id,
                        name: room_name_of(event.user_name, template.suffix),
                        bitrate: bitrate_of(event.premium_tier),
                    },
                ),
            ),
            Some(ResponseView::Template(None)) => (
                ProvisionStateView::Finished(ProvisionOutcome::Ignored),
                None,
            ),
            Some(ResponseView::Failed) => (
                ProvisionStateView::Finished(ProvisionOutcome::Failed(ErrorKind::StoreError)),
                None,
            ),
            _ => (
                ProvisionStateView::Finished(
                    ProvisionOutcome::Failed(ErrorKind::InvariantViolation),
                ),
                None,
            ),
        },
        ProvisionStateView::Creating { guild_id, user_id } => match answer {
            Some(ResponseView::Created { channel_id }) => (
                ProvisionStateView::Granting { guild_id, user_id, room: channel_id },
                Some(
                    RequestView::SetAccess { channel_id, user_id, allow: OWNER_ALLOW, deny: 0 },
                ),
            ),
            Some(ResponseView::Failed) => (
                ProvisionStateView::Finished(ProvisionOutcome::Failed(ErrorKind::PlatformError)),
                None,
            ),
            _ => (
                ProvisionStateView::Finished(
                    ProvisionOutcome::Failed(ErrorKind::InvariantViolation),
                ),
                None,
            ),
        },
        ProvisionStateView::Granting { guild_id, user_id, room } => match answer {
            Some(ResponseView::Done) => (
                ProvisionStateView::Moving { user_id, room },
                Some(RequestView::MoveMember { guild_id, user_id, channel_id: room }),
            ),
            _ => (
                ProvisionStateView::Compensating { room },
                Some(RequestView::DeleteChannel { channel_id: room }),
            ),
        },
        ProvisionStateView::Compensating { room } => (
            ProvisionStateView::Finished(ProvisionOutcome::Failed(ErrorKind::PlatformError)),
            None,
        ),
        ProvisionStateView::Moving { user_id, room } => (
            ProvisionStateView::Recording {
                user_id,
                room,
                moved: answer == Some(ResponseView::Done),
            },
            Some(
                RequestView::InsertMonitored(
                    MonitoredAutoRoom { channel_id: room, owner_id: user_id },
                ),
            ),
        ),
        ProvisionStateView::Recording { user_id, room, moved } => match answer {
            Some(ResponseView::Done) => (
                ProvisionStateView::Finished(
                    ProvisionOutcome::Provisioned { room, owner: user_id, moved },
                ),
                None,
            ),
            _ => (
                ProvisionStateView::Finished(ProvisionOutcome::Failed(ErrorKind::StoreError)),
                None,
            ),
        },
        ProvisionStateView::Finished(outcome) => (ProvisionStateView::Finished(outcome), None),
    }
}

impl ProvisionState {
    /// The state in which provisioning for `event` begins.
    pub fn start(event: JoinEvent) -> (state: ProvisionState)
        ensures
            state@ == ProvisionStateView::Start(event@),
    {
        ProvisionState::Start(event)
    }

    /// How provisioning ended, once it has.
    pub fn outcome(&self) -> (outcome: Option<ProvisionOutcome>)
        ensures
            outcome == (match self@ {
                ProvisionStateView::Finished(o) => Some(o),
                _ => None,
            }),
    {
        match self {
            ProvisionState::Finished(o) => Some(*o),
            _ => None,
        }
    }
}

/// One step of provisioning. The caller begins with
/// [`ProvisionState::start`] and no answer, makes the request that a step
/// returns, and hands the answer to the next step, until a step returns no
/// request: the state is then `Finished`.
pub fn create_proccessing(state: ProvisionState, answer: Option<Response>) -> (next: (
    ProvisionState,
    Option<Request>,
))
    ensures
        (next.0@, request_view(next.1)) == provision_next(state@, response_view(answer)),
{
    match state {
        ProvisionState::Start(event) => {
            let request = AutoRoom::get_by_channel_id(event.channel_id);
            (ProvisionState::FindingTemplate(event), Some(request))
        },
        ProvisionState::FindingTemplate(event) => match answer {
            Some(Response::Template(Some(template))) => {
                let request = Request::CreateVoiceChannel {
                    guild_id: event.guild_id,
                    category_id: template.category_id,
                    name: room_name(&event.user_name, &template.suffix),
                    bitrate: get_bitrate(&event.premium_tier),
                };
                (
                    ProvisionState::Creating { guild_id: event.guild_id, user_id: event.user_id },
                    Some(request),
                )
            },
            Some(Response::Template(None)) => (
                ProvisionState::Finished(ProvisionOutcome::Ignored),
                None,
            ),
            Some(Response::Failed) => (
                ProvisionState::Finished(ProvisionOutcome::Failed(ErrorKind::StoreError)),
                None,
            ),
            _ => (
                ProvisionState::Finished(ProvisionOutcome::Failed(ErrorKind::InvariantViolation)),
                None,
            ),
        },
        ProvisionState::Creating { guild_id, user_id } => match answer {
            Some(Response::Created { channel_id }) => (
                ProvisionState::Granting { guild_id, user_id, room: channel_id },
                Some(grant_owner_privileges(channel_id, user_id)),
            ),
            Some(Response::Failed) => (
                ProvisionState::Finished(ProvisionOutcome::Failed(ErrorKind::PlatformError)),
                None,
            ),
            _ => (
                ProvisionState::Finished(ProvisionOutcome::Failed(ErrorKind::InvariantViolation)),
                None,
            ),
        },
        ProvisionState::Granting { guild_id, user_id, room } => match answer {
            Some(Response::Done) => (
                ProvisionState::Moving { user_id, room },
                Some(Request::MoveMember { guild_id, user_id, channel_id: room }),
            ),
            _ => (
                ProvisionState::Compensating { room },
                Some(Request::DeleteChannel { channel_id: room }),
            ),
        },
        ProvisionState::Compensating { room } => (
            ProvisionState::Finished(ProvisionOutcome::Failed(ErrorKind::PlatformError)),
            None,
        ),
        ProvisionState::Moving { user_id, room } => {
            let moved = match answer {
                Some(Response::Done) => true,
                _ => false,
            };
            (
                ProvisionState::Recording { user_id, room, moved },
                Some(MonitoredAutoRoom::new(room, user_id)),
            )
        },
        ProvisionState::Recording { user_id, room, moved } => match answer {
            Some(Response::Done) => (
                ProvisionState::Finished(
                    ProvisionOutcome::Provisioned { room, owner: user_id, moved },
                ),
                None,
            ),
            _ => (
                ProvisionState::Finished(ProvisionOutcome::Failed(ErrorKind::StoreError)),
                None,
            ),
        },
        ProvisionState::Finished(outcome) => (ProvisionState::Finished(outcome), None),
    }
}

} // verus!
