//! Guest grants, and the profiles that keep a room's guest list for later.
//!
//! A guest grant allows a user into a room and stages the user as a guest of
//! that room. Saving a room writes the staged guests to the store under a
//! name. Replaying a profile grants each of its guests access to another
//! room; a guest whose grant fails is passed over.

use crate::cache::{add_guest_to_cache, stage_guest, SavedRoomCache, StagedGuests};
use crate::gateway::{
    request_view, response_view, ErrorKind, Request, RequestView, Response, ResponseView,
};
use crate::permissions::{grant_guest_privileges, GUEST_ALLOW};
use crate::records::{
    AutoRoom, MonitoredAutoRoom, SavedRoom, SavedRoomDTO, SavedRoomDTOView, SavedRoomGuest,
    SavedRoomView,
};
use vstd::prelude::*;

verus! {

/// The request that grants `guest_id` guest access to `room`.
pub open spec fn guest_grant(room: i64, guest_id: i64) -> RequestView {
    RequestView::SetAccess { channel_id: room, user_id: guest_id, allow: GUEST_ALLOW, deny: 0 }
}

/// A guest that a step stages: `guest_id` was granted access to `room` of
/// `owner_id`.
pub struct Staged {
    pub room: i64,
    pub owner_id: i64,
    pub guest_id: i64,
}

/// The cache after a step that stages `staged`.
pub open spec fn after_staging(cache: Map<i64, StagedGuests>, staged: Option<Staged>) -> Map<
    i64,
    StagedGuests,
> {
    match staged {
        Some(s) => stage_guest(cache, s.room, s.owner_id, s.guest_id),
        None => cache,
    }
}

/// Takes the answer to a guest grant for `guest_id` on `room` of
/// `owner_id`: a grant that was made is staged in `cache`; one that was not
/// leaves the cache as it is. Tells whether the grant was made.
pub fn confirm_guest_grant(
    answer: &Option<Response>,
    cache: &mut SavedRoomCache,
    room: i64,
    owner_id: i64,
    guest_id: i64,
) -> (made: bool)
    ensures
        made == (response_view(*answer) == Some(ResponseView::Done)),
        final(cache)@ == (if made {
            stage_guest(old(cache)@, room, owner_id, guest_id)
        } else {
            old(cache)@
        }),
{
    match answer {
        Some(Response::Done) => {
            add_guest_to_cache(cache, room, owner_id, guest_id);
            true
        },
        _ => false,
    }
}

/// How an invitation ended.
#[derive(Clone, Copy, Debug, PartialEq, Eq, Structural)]
pub enum InviteOutcome {
    /// The guest may enter `room`, and is staged as its guest.
    Invited { room: i64 },
    /// The invitation was given up. `NotFound` says that the inviter owns no
    /// monitored room.
    Failed(ErrorKind),
}

/// Where an invitation stands.
#[derive(Clone, Copy, Debug, PartialEq, Eq, Structural)]
pub enum InviteState {
    /// Nothing has been asked yet.
    Start { inviter_id: i64, guest_id: i64 },
    /// The store was asked for the room of the inviter.
    FindingRoom { inviter_id: i64, guest_id: i64 },
    /// The platform was asked to let the guest into `room`.
    Granting { room: i64, inviter_id: i64, guest_id: i64 },
    /// The invitation is over.
    Finished(InviteOutcome),
}

/// What a step of an invitation does: the state it goes to, what it asks
/// next, and the guest it stages, if any.
pub struct InviteStep {
    pub state: InviteState,
    pub request: Option<RequestView>,
    pub staged: Option<Staged>,
}

/// The step an invitation takes in `state` on `answer`. The guest is staged
/// only once the platform has made the grant.
pub open spec fn invite_next(state: InviteState, answer: Option<ResponseView>) -> InviteStep {
    match state {
        InviteState::Start { inviter_id, guest_id } => InviteStep {
            state: InviteState::FindingRoom { inviter_id, guest_id },
            request: Some(RequestView::FindMonitoredByOwner { owner_id: inviter_id }),
            staged: None,
        },
        InviteState::FindingRoom { inviter_id, guest_id } => match answer {
            Some(ResponseView::Monitored(Some(room))) => InviteStep {
                state: InviteState::Granting { room: room.channel_id, inviter_id, guest_id },
                request: Some(guest_grant(room.channel_id, guest_id)),
                staged: None,
            },
            Some(ResponseView::Monitored(None)) => InviteStep {
                state: InviteState::Finished(InviteOutcome::Failed(ErrorKind::NotFound)),
                request: None,
                staged: None,
            },
            Some(ResponseView::Failed) => InviteStep {
                state: InviteState::Finished(InviteOutcome::Failed(ErrorKind::StoreError)),
                request: None,
                staged: None,
            },
            _ => InviteStep {
                state: InviteState::Finished(InviteOutcome::Failed(ErrorKind::InvariantViolation)),
                request: None,
                staged: None,
            },
        },
        InviteState::Granting { room, inviter_id, guest_id } => match answer {
            Some(ResponseView::Done) => InviteStep {
                state: InviteState::Finished(InviteOutcome::Invited { room }),
                request: None,
                staged: Some(Staged { room, owner_id: inviter_id, guest_id }),
            },
            _ => InviteStep {
                state: InviteState::Finished(InviteOutcome::Failed(ErrorKind::PlatformError)),
                request: None,
                staged: None,
            },
        },
        InviteState::Finished(outcome) => InviteStep {
            state: InviteState::Finished(outcome),
            request: None,
            staged: None,
        },
    }
}

impl InviteState {
    /// The state in which the invitation of `guest_id` by `inviter_id`
    /// begins.
    pub fn start(inviter_id: i64, guest_id: i64) -> (state: InviteState)
        ensures
            state == (InviteState::Start { inviter_id, guest_id }),
    {
        InviteState::Start { inviter_id, guest_id }
    }

    /// How the invitation ended, once it has.
    pub fn outcome(&self) -> (outcome: Option<InviteOutcome>)
        ensures
            outcome == (match *self {
                InviteState::Finished(o) => Some(o),
                _ => None,
            }),
    {
        match self {
            InviteState::Finished(o) => Some(*o),
            _ => None,
        }
    }
}

/// One step of an invitation: the inviter's room is looked up, the guest is
/// let into it, and the grant is staged in `cache`. The caller begins with
/// [`InviteState::start`] and no answer, makes the request that a step
/// returns, and hands the answer to the next step, until a step returns no
/// request.
pub fn invite(state: InviteState, answer: Option<Response>, cache: &mut SavedRoomCache) -> (next: (
    InviteState,
    Option<Request>,
))
    ensures
        next.0 == invite_next(state, response_view(answer)).state,
        request_view(next.1) == invite_next(state, response_view(answer)).request,
        final(cache)@ == after_staging(
            old(cache)@,
            invite_next(state, response_view(answer)).staged,
        ),
{
    match state {
        InviteState::Start { inviter_id, guest_id } => (
            InviteState::FindingRoom { inviter_id, guest_id },
            Some(MonitoredAutoRoom::get_by_owner_id(inviter_id)),
        ),
        InviteState::FindingRoom { inviter_id, guest_id } => match answer {
            Some(Response::Monitored(Some(room))) => (
                InviteState::Granting { room: room.channel_id, inviter_id, guest_id },
                Some(grant_guest_privileges(room.channel_id, guest_id)),
            ),
            Some(Response::Monitored(None)) => (
                InviteState::Finished(InviteOutcome::Failed(ErrorKind::NotFound)),
                None,
            ),
            Some(Response::Failed) => (
                InviteState::Finished(InviteOutcome::Failed(ErrorKind::StoreError)),
                None,
            ),
            _ => (
                InviteState::Finished(InviteOutcome::Failed(ErrorKind::InvariantViolation)),
                None,
            ),
        },
        InviteState::Granting { room, inviter_id, guest_id } => {
            if confirm_guest_grant(&answer, cache, room, inviter_id, guest_id) {
                (InviteState::Finished(InviteOutcome::Invited { room }), None)
            } else {
                (InviteState::Finished(InviteOutcome::Failed(ErrorKind::PlatformError)), None)
            }
        },
        InviteState::Finished(outcome) => (InviteState::Finished(outcome), None),
    }
}

/// The voice channel that a user asks to save: its id, its name, and the
/// category it is placed under, if any.
#[derive(Debug)]
pub struct RoomInfo {
    pub id: i64,
    pub name: String,
    pub category_id: Option<i64>,
}

/// How saving a room ended.
#[derive(Clone, Copy, Debug, PartialEq, Eq, Structural)]
pub enum SaveOutcome {
    /// The profile is in the store under `profile_id`.
    Saved { profile_id: i32 },
    /// No guest is staged for the room.
    NothingToSave,
    /// The room is placed under no category.
    OutsideCategory,
    /// No template places its rooms under the room's category.
    OutsideTemplate { category_id: i64 },
    /// Saving was given up.
    Failed(ErrorKind),
}

/// Where saving a room stands.
#[derive(Debug)]
pub enum SaveState {
    /// Nothing has been asked yet.
    Start { category_id: i64, owner_id: i64, name: String, room_name: String, guests: Vec<i64> },
    /// The store was asked for the template of the room's category.
    FindingTemplate {
        category_id: i64,
        owner_id: i64,
        name: String,
        room_name: String,
        guests: Vec<i64>,
    },
    /// The store was asked to save the profile.
    Inserting,
    /// Saving is over.
    Finished(SaveOutcome),
}

/// A [`SaveState`] as mathematical values.
pub enum SaveStateView {
    Start {
        category_id: i64,
        owner_id: i64,
        name: Seq<char>,
        room_name: Seq<char>,
        guests: Seq<i64>,
    },
    FindingTemplate {
        category_id: i64,
        owner_id: i64,
        name: Seq<char>,
        room_name: Seq<char>,
        guests: Seq<i64>,
    },
    Inserting,
    Finished(SaveOutcome),
}

impl View for SaveState {
    type V = SaveStateView;

    open spec fn view(&self) -> SaveStateView {
        match self {
            SaveState::Start {
                category_id,
                owner_id,
                name,
                room_name,
                guests,
            } => SaveStateView::Start {
                category_id: *category_id,
                owner_id: *owner_id,
                name: name@,
                room_name: room_name@,
                guests: guests@,
            },
            SaveState::FindingTemplate {
                category_id,
                owner_id,
                name,
                room_name,
                guests,
            } => SaveStateView::FindingTemplate {
                category_id: *category_id,
                owner_id: *owner_id,
                name: name@,
                room_name: room_name@,
                guests: guests@,
            },
            SaveState::Inserting => SaveStateView::Inserting,
            SaveState::Finished(outcome) => SaveStateView::Finished(*outcome),
        }
    }
}

/// Whether saving `room_id` begins in `state`, given what is staged in
/// `cache`. A room without staged guests has nothing to save; a room
/// outside every category cannot be saved. Otherwise the profile will
/// belong to the owner staged for the room, be called `name`, or as the room
/// is where no name is given, and hold the staged guests, each once, in some
/// order.
pub open spec fn save_begins(
    cache: Map<i64, StagedGuests>,
    room_id: i64,
    room_name: Seq<char>,
    category_id: Option<i64>,
    name: Option<Seq<char>>,
    state: SaveStateView,
) -> bool {
    if !cache.contains_key(room_id) || cache[room_id].guests.is_empty() {
        state == SaveStateView::Finished(SaveOutcome::NothingToSave)
    } else {
        match category_id {
            None => state == SaveStateView::Finished(SaveOutcome::OutsideCategory),
            Some(category) => {
                &&& state matches SaveStateView::Start {
                    category_id: c,
                    owner_id,
                    name: n,
                    room_name: r,
                    guests,
                }
                &&& c == category
                &&& owner_id == cache[room_id].owner_id
                &&& n == match name {
                    Some(given) => given,
                    None => room_name,
                }
                &&& r == room_name
                &&& guests.no_duplicates()
                &&& guests.to_set() == cache[room_id].guests
            },
        }
    }
}

/// The step that saving takes in `state` on `answer`: the state it goes to,
/// and what it asks next, if anything.
pub open spec fn save_next(state: SaveStateView, answer: Option<ResponseView>) -> (
    SaveStateView,
    Option<RequestView>,
) {
    match state {
        SaveStateView::Start { category_id, owner_id, name, room_name, guests } => (
            SaveStateView::FindingTemplate { category_id, owner_id, name, room_name, guests },
            Some(RequestView::FindTemplateByCategory { category_id }),
        ),
        SaveStateView::FindingTemplate {
            category_id,
            owner_id,
            name,
            room_name,
            guests,
        } => match answer {
            Some(ResponseView::Template(Some(template))) => (
                SaveStateView::Inserting,
                Some(
                    RequestView::InsertProfile {
                        profile: SavedRoomDTOView {
                            owner_id,
                            name,
                            room_name,
                            autoroom_id: template.channel_id,
                        },
                        guests,
                    },
                ),
            ),
            Some(ResponseView::Template(None)) => (
                SaveStateView::Finished(SaveOutcome::OutsideTemplate { category_id }),
                None,
            ),
            Some(ResponseView::Failed) => (
                SaveStateView::Finished(SaveOutcome::Failed(ErrorKind::StoreError)),
                None,
            ),
            _ => (
                SaveStateView::Finished(SaveOutcome::Failed(ErrorKind::InvariantViolation)),
                None,
            ),
        },
        SaveStateView::Inserting => match answer {
            Some(ResponseView::ProfileId(profile_id)) => (
                SaveStateView::Finished(SaveOutcome::Saved { profile_id }),
                None,
            ),
            _ => (SaveStateView::Finished(SaveOutcome::Failed(ErrorKind::StoreError)), None),
        },
        SaveStateView::Finished(outcome) => (SaveStateView::Finished(outcome), None),
    }
}

impl SaveState {
    /// The state in which saving `room` under `name` begins. What is staged
    /// for the room is read from `cache` here, once; the cache keeps it.
    pub fn start(room: RoomInfo, name: Option<String>, cache: &SavedRoomCache) -> (state: SaveState)
        ensures
            save_begins(
                cache@,
                room.id,
                room.name@,
                room.category_id,
                match name {
                    Some(n) => Some(n@),
                    None => None,
                },
                state@,
            ),
    {
        let record = match cache.get(room.id) {
            Some(record) => record,
            None => {
                return SaveState::Finished(SaveOutcome::NothingToSave);
            },
        };
        if record.is_empty() {
            return SaveState::Finished(SaveOutcome::NothingToSave);
        }
        let category_id = match room.category_id {
            Some(category_id) => category_id,
            None => {
                return SaveState::Finished(SaveOutcome::OutsideCategory);
            },
        };
        let name = match name {
            Some(name) => name,
            None => room.name.clone(),
        };
        SaveState::Start {
            category_id,
            owner_id: record.owner_id(),
            name,
            room_name: room.name,
            guests: record.guests(),
        }
    }

    /// How saving ended, once it has.
    pub fn outcome(&self) -> (outcome: Option<SaveOutcome>)
        ensures
            outcome == (match self@ {
                SaveStateView::Finished(o) => Some(o),
                _ => None,
            }),
    {
        match self {
            SaveState::Finished(o) => Some(*o),
            _ => None,
        }
    }
}

/// One step of saving a room as a profile. The caller begins with
/// [`SaveState::start`] and no answer, makes the request that a step
/// returns, and hands the answer to the next step, until a step returns no
/// request.
pub fn save(state: SaveState, answer: Option<Response>) -> (next: (SaveState, Option<Request>))
    ensures
        (next.0@, request_view(next.1)) == save_next(state@, response_view(answer)),
{
    match state {
        SaveState::Start { category_id, owner_id, name, room_name, guests } => (
            SaveState::FindingTemplate { category_id, owner_id, name, room_name, guests },
            Some(AutoRoom::get_by_category_id(category_id)),
        ),
        SaveState::FindingTemplate {
            category_id,
            owner_id,
            name,
            room_name,
            guests,
        } => match answer {
            Some(Response::Template(Some(template))) => (
                SaveState::Inserting,
                Some(
                    SavedRoom::insert(
                        SavedRoomDTO {
                            owner_id,
                            name,
                            room_name,
                            autoroom_id: template.channel_id,
                        },
                        guests,
                    ),
                ),
            ),
            Some(Response::Template(None)) => (
                SaveState::Finished(SaveOutcome::OutsideTemplate { category_id }),
                None,
            ),
            Some(Response::Failed) => (
                SaveState::Finished(SaveOutcome::Failed(ErrorKind::StoreError)),
                None,
            ),
            _ => (SaveState::Finished(SaveOutcome::Failed(ErrorKind::InvariantViolation)), None),
        },
        SaveState::Inserting => match answer {
            Some(Response::ProfileId(profile_id)) => (
                SaveState::Finished(SaveOutcome::Saved { profile_id }),
                None,
            ),
            _ => (SaveState::Finished(SaveOutcome::Failed(ErrorKind::StoreError)), None),
        },
        SaveState::Finished(outcome) => (SaveState::Finished(outcome), None),
    }
}

/// The first profile of `savedrooms` that is called `record_name`, if there
/// is one.
pub open spec fn first_named(savedrooms: Seq<SavedRoomView>, record_name: Seq<char>) -> Option<
    SavedRoomView,
>
    decreases savedrooms.len(),
{
    if savedrooms.len() == 0 {
        None
    } else if savedrooms.first().name == record_name {
        Some(savedrooms.first())
    } else {
        first_named(savedrooms.drop_first(), record_name)
    }
}

/// The views of a list of profiles, in order.
pub open spec fn profile_views(savedrooms: Seq<SavedRoom>) -> Seq<SavedRoomView> {
    Seq::new(savedrooms.len(), |i: int| savedrooms[i]@)
}

/// The profile that a user means by `record_name`: the first of
/// `savedrooms` with that name.
pub fn find_profile(savedrooms: &Vec<SavedRoom>, record_name: &String) -> (profile: Option<
    SavedRoom,
>)
    ensures
        (match profile {
            Some(p) => first_named(profile_views(savedrooms@), record_name@) == Some(p@),
            None => first_named(profile_views(savedrooms@), record_name@).is_none(),
        }),
{
    let ghost views = profile_views(savedrooms@);
    let mut i: usize = 0;
    assert(views.skip(0) =~= views);
    while i < savedrooms.len()
        invariant
            i <= savedrooms.len(),
            views == profile_views(savedrooms@),
            first_named(views, record_name@) == first_named(views.skip(i as int), record_name@),
        decreases savedrooms.len() - i,
    {
        proof {
            assert(views.skip(i as int).first() == savedrooms@[i as int]@);
            assert(views.skip(i as int).drop_first() =~= views.skip(i + 1));
        }
        if savedrooms[i].name == *record_name {
            return Some(savedrooms[i].clone());
        }
        i += 1;
    }
    assert(views.skip(i as int).len() == 0);
    None
}

/// How replaying a profile ended.
#[derive(Debug)]
pub enum LoadOutcome {
    /// The guests in `granted` may enter the room, and are staged as its
    /// guests.
    Loaded { granted: Vec<i64> },
    /// Replaying was given up before any grant.
    Failed(ErrorKind),
}

/// A [`LoadOutcome`] as mathematical values.
pub enum LoadOutcomeView {
    Loaded { granted: Seq<i64> },
    Failed(ErrorKind),
}

impl View for LoadOutcome {
    type V = LoadOutcomeView;

    open spec fn view(&self) -> LoadOutcomeView {
        match self {
            LoadOutcome::Loaded { granted } => LoadOutcomeView::Loaded { granted: granted@ },
            LoadOutcome::Failed(error) => LoadOutcomeView::Failed(*error),
        }
    }
}

/// Where replaying a profile stands.
#[derive(Debug)]
pub enum LoadState {
    /// Nothing has been asked yet.
    Start { room: i64, owner_id: i64, profile_id: i32 },
    /// The store was asked for the guests of the profile.
    FetchingGuests { room: i64, owner_id: i64 },
    /// The platform was asked to let the guest at `next` into `room`. Those
    /// in `granted` were let in before.
    Granting { room: i64, owner_id: i64, guests: Vec<i64>, next: usize, granted: Vec<i64> },
    /// Replaying is over.
    Finished(LoadOutcome),
}

/// A [`LoadState`] as mathematical values.
pub enum LoadStateView {
    Start { room: i64, owner_id: i64, profile_id: i32 },
    FetchingGuests { room: i64, owner_id: i64 },
    Granting { room: i64, owner_id: i64, guests: Seq<i64>, next: usize, granted: Seq<i64> },
    Finished(LoadOutcomeView),
}

impl View for LoadState {
    type V = LoadStateView;

    open spec fn view(&self) -> LoadStateView {
        match self {
            LoadState::Start { room, owner_id, profile_id } => LoadStateView::Start {
                room: *room,
                owner_id: *owner_id,
                profile_id: *profile_id,
            },
            LoadState::FetchingGuests { room, owner_id } => LoadStateView::FetchingGuests {
                room: *room,
                owner_id: *owner_id,
            },
            LoadState::Granting {
                room,
                owner_id,
                guests,
                next,
                granted,
            } => LoadStateView::Granting {
                room: *room,
                owner_id: *owner_id,
                guests: guests@,
                next: *next,
                granted: granted@,
            },
            LoadState::Finished(outcome) => LoadStateView::Finished(outcome@),
        }
    }
}

/// What a step of replaying does: the state it goes to, what it asks next,
/// and the guest it stages, if any.
pub struct LoadStep {
    pub state: LoadStateView,
    pub request: Option<RequestView>,
    pub staged: Option<Staged>,
}

/// Replaying from the guest at `next` on: the grant for that guest is asked
/// for, or replaying is over where no guest is left.
pub open spec fn grant_from(
    room: i64,
    owner_id: i64,
    guests: Seq<i64>,
    next: usize,
    granted: Seq<i64>,
) -> (LoadStateView, Option<RequestView>) {
    if next < guests.len() {
        (
            LoadStateView::Granting { room, owner_id, guests, next, granted },
            Some(guest_grant(room, guests[next as int])),
        )
    } else {
        (LoadStateView::Finished(LoadOutcomeView::Loaded { granted }), None)
    }
}

/// The step that replaying takes in `state` on `answer`. A guest whose grant
/// is made is staged and listed as granted; one whose grant fails is passed
/// over, and replaying goes on with the next.
pub open spec fn load_next(state: LoadStateView, answer: Option<ResponseView>) -> LoadStep {
    match state {
        LoadStateView::Start { room, owner_id, profile_id } => LoadStep {
            state: LoadStateView::FetchingGuests { room, owner_id },
            request: Some(RequestView::ProfileGuests { profile_id }),
            staged: None,
        },
        LoadStateView::FetchingGuests { room, owner_id } => match answer {
            Some(ResponseView::Guests(guests)) => LoadStep {
                state: grant_from(room, owner_id, guests, 0, Seq::empty()).0,
                request: grant_from(room, owner_id, guests, 0, Seq::empty()).1,
                staged: None,
            },
            Some(ResponseView::Failed) => LoadStep {
                state: LoadStateView::Finished(LoadOutcomeView::Failed(ErrorKind::StoreError)),
                request: None,
                staged: None,
            },
            _ => LoadStep {
                state: LoadStateView::Finished(
                    LoadOutcomeView::Failed(ErrorKind::InvariantViolation),
                ),
                request: None,
                staged: None,
            },
        },
        LoadStateView::Granting { room, owner_id, guests, next, granted } => if next
            >= guests.len() {
            LoadStep {
                state: LoadStateView::Finished(LoadOutcomeView::Loaded { granted }),
                request: None,
                staged: None,
            }
        } else if answer == Some(ResponseView::Done) {
            let now = granted.push(guests[next as int]);
            LoadStep {
                state: grant_from(room, owner_id, guests, (next + 1) as usize, now).0,
                request: grant_from(room, owner_id, guests, (next + 1) as usize, now).1,
                staged: Some(Staged { room, owner_id, guest_id: guests[next as int] }),
            }
        } else {
            LoadStep {
                state: grant_from(room, owner_id, guests, (next + 1) as usize, granted).0,
                request: grant_from(room, owner_id, guests, (next + 1) as usize, granted).1,
                staged: None,
            }
        },
        LoadStateView::Finished(outcome) => LoadStep {
            state: LoadStateView::Finished(outcome),
            request: None,
            staged: None,
        },
    }
}

impl LoadState {
    /// The state in which replaying `profile_id` on `room` of `owner_id`
    /// begins.
    pub fn start(room: i64, owner_id: i64, profile_id: i32) -> (state: LoadState)
        ensures
            state@ == (LoadStateView::Start { room, owner_id, profile_id }),
    {
        LoadState::Start { room, owner_id, profile_id }
    }

    /// The guests that were let in, once replaying is over and was not given
    /// up.
    pub fn granted(&self) -> (granted: Option<Vec<i64>>)
        ensures
            (match self@ {
                LoadStateView::Finished(LoadOutcomeView::Loaded { granted: g }) => granted.is_some()
                    && granted.unwrap()@ == g,
                _ => granted.is_none(),
            }),
    {
        match self {
            LoadState::Finished(LoadOutcome::Loaded { granted }) => Some(granted.clone()),
            _ => None,
        }
    }

    /// Why replaying was given up, if it was.
    pub fn failure(&self) -> (error: Option<ErrorKind>)
        ensures
            error == (match self@ {
                LoadStateView::Finished(LoadOutcomeView::Failed(e)) => Some(e),
                _ => None,
            }),
    {
        match self {
            LoadState::Finished(LoadOutcome::Failed(e)) => Some(*e),
            _ => None,
        }
    }
}

/// Goes on with the guest at `next`.
fn continue_from(
    room: i64,
    owner_id: i64,
    guests: Vec<i64>,
    next: usize,
    granted: Vec<i64>,
) -> (step: (LoadState, Option<Request>))
    ensures
        (step.0@, request_view(step.1)) == grant_from(room, owner_id, guests@, next, granted@),
{
    if next < guests.len() {
        let request = grant_guest_privileges(room, guests[next]);
        (LoadState::Granting { room, owner_id, guests, next, granted }, Some(request))
    } else {
        (LoadState::Finished(LoadOutcome::Loaded { granted }), None)
    }
}

/// One step of replaying a profile on a room. The caller begins with
/// [`LoadState::start`] and no answer, makes the request that a step
/// returns, and hands the answer to the next step, until a step returns no
/// request. Each grant that the platform makes is staged in `cache`.
pub fn load(state: LoadState, answer: Option<Response>, cache: &mut SavedRoomCache) -> (next: (
    LoadState,
    Option<Request>,
))
    ensures
        next.0@ == load_next(state@, response_view(answer)).state,
        request_view(next.1) == load_next(state@, response_view(answer)).request,
        final(cache)@ == after_staging(
            old(cache)@,
            load_next(state@, response_view(answer)).staged,
        ),
{
    match state {
        LoadState::Start { room, owner_id, profile_id } => (
            LoadState::FetchingGuests { room, owner_id },
            Some(SavedRoomGuest::get_guests(profile_id)),
        ),
        LoadState::FetchingGuests { room, owner_id } => match answer {
            Some(Response::Guests(guests)) => continue_from(room, owner_id, guests, 0, Vec::new()),
            Some(Response::Failed) => (
                LoadState::Finished(LoadOutcome::Failed(ErrorKind::StoreError)),
                None,
            ),
            _ => (LoadState::Finished(LoadOutcome::Failed(ErrorKind::InvariantViolation)), None),
        },
        LoadState::Granting { room, owner_id, guests, next, granted } => {
            if next >= guests.len() {
                return (LoadState::Finished(LoadOutcome::Loaded { granted }), None);
            }
            let guest_id = guests[next];
            let mut granted = granted;
            if confirm_guest_grant(&answer, cache, room, owner_id, guest_id) {
                granted.push(guest_id);
            }
            continue_from(room, owner_id, guests, next + 1, granted)
        },
        LoadState::Finished(outcome) => (LoadState::Finished(outcome), None),
    }
}

} // verus!
