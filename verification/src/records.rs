//! The rows of the four tables the controller keeps in the store.

use vstd::prelude::*;

verus! {

/// Suffix a template gets when its creator names none.
pub open spec fn default_suffix() -> Seq<char> {
    "room"@
}

/// A room template: joining `channel_id` provisions a room under
/// `category_id` whose name ends in `suffix`. At most one template exists per
/// `channel_id`.
#[derive(Debug)]
pub struct AutoRoom {
    pub channel_id: i64,
    pub guild_id: i64,
    pub category_id: i64,
    pub suffix: String,
}

/// What an [`AutoRoom`] holds, as mathematical values.
pub struct AutoRoomView {
    pub channel_id: i64,
    pub guild_id: i64,
    pub category_id: i64,
    pub suffix: Seq<char>,
}

impl View for AutoRoom {
    type V = AutoRoomView;

    open spec fn view(&self) -> AutoRoomView {
        AutoRoomView {
            channel_id: self.channel_id,
            guild_id: self.guild_id,
            category_id: self.category_id,
            suffix: self.suffix@,
        }
    }
}

impl Clone for AutoRoom {
    fn clone(&self) -> (copy: Self)
        ensures
            copy@ == self@,
    {
        AutoRoom {
            channel_id: self.channel_id,
            guild_id: self.guild_id,
            category_id: self.category_id,
            suffix: self.suffix.clone(),
        }
    }
}

impl AutoRoom {
    /// A template for `channel_id` in `guild_id` that places its rooms under
    /// `category_id`. Without a suffix the rooms are called "room".
    pub fn new(
        channel_id: i64,
        guild_id: i64,
        category_id: i64,
        suffix: Option<String>,
    ) -> (template: AutoRoom)
        ensures
            template@ == (AutoRoomView {
                channel_id,
                guild_id,
                category_id,
                suffix: match suffix {
                    Some(s) => s@,
                    None => default_suffix(),
                },
            }),
    {
        let suffix = match suffix {
            Some(s) => s,
            None => "room".to_string(),
        };
        AutoRoom { channel_id, guild_id, category_id, suffix }
    }
}

/// Which templates a delete request removes.
#[derive(Debug)]
pub enum AutoRoomDeleteStrategy {
    SingleByChannelId(i64),
    SingleByCategoryId(i64),
    ManyByChannelId(Vec<i64>),
    ManyByCategoryId(Vec<i64>),
}

/// An [`AutoRoomDeleteStrategy`] as mathematical values.
pub enum DeleteStrategyView {
    SingleByChannelId(i64),
    SingleByCategoryId(i64),
    ManyByChannelId(Seq<i64>),
    ManyByCategoryId(Seq<i64>),
}

impl DeleteStrategyView {
    /// Whether the strategy removes a template with this origin channel and
    /// this placement category.
    pub open spec fn selects(self, channel_id: i64, category_id: i64) -> bool {
        match self {
            DeleteStrategyView::SingleByChannelId(id) => channel_id == id,
            DeleteStrategyView::SingleByCategoryId(id) => category_id == id,
            DeleteStrategyView::ManyByChannelId(ids) => ids.contains(channel_id),
            DeleteStrategyView::ManyByCategoryId(ids) => ids.contains(category_id),
        }
    }
}

impl View for AutoRoomDeleteStrategy {
    type V = DeleteStrategyView;

    open spec fn view(&self) -> DeleteStrategyView {
        match self {
            AutoRoomDeleteStrategy::SingleByChannelId(id) => {
                DeleteStrategyView::SingleByChannelId(*id)
            },
            AutoRoomDeleteStrategy::SingleByCategoryId(id) => {
                DeleteStrategyView::SingleByCategoryId(*id)
            },
            AutoRoomDeleteStrategy::ManyByChannelId(ids) => {
                DeleteStrategyView::ManyByChannelId(ids@)
            },
            AutoRoomDeleteStrategy::ManyByCategoryId(ids) => {
                DeleteStrategyView::ManyByCategoryId(ids@)
            },
        }
    }
}

/// Whether `ids` holds `id`.
pub fn contains_id(ids: &Vec<i64>, id: i64) -> (found: bool)
    ensures
        found == ids@.contains(id),
{
    let mut i: usize = 0;
    while i < ids.len()
        invariant
            i <= ids.len(),
            forall|j: int| 0 <= j < i ==> ids@[j] != id,
        decreases ids.len() - i,
    {
        if ids[i] == id {
            return true;
        }
        i += 1;
    }
    false
}

impl AutoRoomDeleteStrategy {
    /// Whether this strategy removes `template`.
    pub fn selects(&self, template: &AutoRoom) -> (hit: bool)
        ensures
            hit == self@.selects(template.channel_id, template.category_id),
    {
        match self {
            AutoRoomDeleteStrategy::SingleByChannelId(id) => template.channel_id == *id,
            AutoRoomDeleteStrategy::SingleByCategoryId(id) => template.category_id == *id,
            AutoRoomDeleteStrategy::ManyByChannelId(ids) => contains_id(ids, template.channel_id),
            AutoRoomDeleteStrategy::ManyByCategoryId(ids) => contains_id(
                ids,
                template.category_id,
            ),
        }
    }
}

/// A provisioned room that is believed to be live, and the user it was made
/// for. At most one row exists per `channel_id`.
#[derive(Clone, Copy, Debug, PartialEq, Eq, Structural)]
pub struct MonitoredAutoRoom {
    pub channel_id: i64,
    pub owner_id: i64,
}

/// A saved profile without the id the store gives it.
#[derive(Debug)]
pub struct SavedRoomDTO {
    pub owner_id: i64,
    pub name: String,
    pub room_name: String,
    pub autoroom_id: i64,
}

/// What a [`SavedRoomDTO`] holds, as mathematical values.
pub struct SavedRoomDTOView {
    pub owner_id: i64,
    pub name: Seq<char>,
    pub room_name: Seq<char>,
    pub autoroom_id: i64,
}

impl View for SavedRoomDTO {
    type V = SavedRoomDTOView;

    open spec fn view(&self) -> SavedRoomDTOView {
        SavedRoomDTOView {
            owner_id: self.owner_id,
            name: self.name@,
            room_name: self.room_name@,
            autoroom_id: self.autoroom_id,
        }
    }
}

impl Clone for SavedRoomDTO {
    fn clone(&self) -> (copy: Self)
        ensures
            copy@ == self@,
    {
        SavedRoomDTO {
            owner_id: self.owner_id,
            name: self.name.clone(),
            room_name: self.room_name.clone(),
            autoroom_id: self.autoroom_id,
        }
    }
}

/// A saved profile: the guest list of a room under a name its owner chose,
/// to be replayed on a later room of the same template. `id` is given by the
/// store; `autoroom_id` is the origin channel of that template.
#[derive(Debug)]
pub struct SavedRoom {
    pub id: i32,
    pub owner_id: i64,
    pub name: String,
    pub room_name: String,
    pub autoroom_id: i64,
}

/// What a [`SavedRoom`] holds, as mathematical values.
pub struct SavedRoomView {
    pub id: i32,
    pub owner_id: i64,
    pub name: Seq<char>,
    pub room_name: Seq<char>,
    pub autoroom_id: i64,
}

impl SavedRoomView {
    /// The profile without its id.
    pub open spec fn dto(self) -> SavedRoomDTOView {
        SavedRoomDTOView {
            owner_id: self.owner_id,
            name: self.name,
            room_name: self.room_name,
            autoroom_id: self.autoroom_id,
        }
    }
}

impl View for SavedRoom {
    type V = SavedRoomView;

    open spec fn view(&self) -> SavedRoomView {
        SavedRoomView {
            id: self.id,
            owner_id: self.owner_id,
            name: self.name@,
            room_name: self.room_name@,
            autoroom_id: self.autoroom_id,
        }
    }
}

impl SavedRoom {
    /// The profile that the store keeps under `id` for `profile`.
    pub fn new(id: i32, profile: SavedRoomDTO) -> (saved: SavedRoom)
        ensures
            saved@.id == id,
            saved@.dto() == profile@,
    {
        SavedRoom {
            id,
            owner_id: profile.owner_id,
            name: profile.name,
            room_name: profile.room_name,
            autoroom_id: profile.autoroom_id,
        }
    }

    /// The id the store gave this profile.
    pub fn id(&self) -> (id: i32)
        ensures
            id == self@.id,
    {
        self.id
    }
}

impl Clone for SavedRoom {
    fn clone(&self) -> (copy: Self)
        ensures
            copy@ == self@,
    {
        SavedRoom {
            id: self.id,
            owner_id: self.owner_id,
            name: self.name.clone(),
            room_name: self.room_name.clone(),
            autoroom_id: self.autoroom_id,
        }
    }
}

impl vstd::std_specs::convert::FromSpecImpl<SavedRoom> for SavedRoomDTO {
    open spec fn obeys_from_spec() -> bool {
        true
    }

    open spec fn from_spec(savedroom: SavedRoom) -> SavedRoomDTO {
        SavedRoomDTO {
            owner_id: savedroom.owner_id,
            name: savedroom.name,
            room_name: savedroom.room_name,
            autoroom_id: savedroom.autoroom_id,
        }
    }
}

impl From<SavedRoom> for SavedRoomDTO {
    /// The profile without its id.
    fn from(savedroom: SavedRoom) -> (profile: SavedRoomDTO)
        ensures
            profile@ == savedroom@.dto(),
    {
        SavedRoomDTO {
            owner_id: savedroom.owner_id,
            name: savedroom.name,
            room_name: savedroom.room_name,
            autoroom_id: savedroom.autoroom_id,
        }
    }
}

/// One guest of a saved profile.
#[derive(Clone, Copy, Debug, PartialEq, Eq, Structural)]
pub struct SavedRoomGuest {
    pub savedroom_id: i64,
    pub guest_id: i64,
}

/// The guest rows of profile `savedroom_id`: one per guest, in the order of
/// `guest_ids`, each under the profile's id.
pub open spec fn guest_rows(savedroom_id: i32, guest_ids: Seq<i64>) -> Seq<SavedRoomGuest> {
    Seq::new(
        guest_ids.len(),
        |i: int| SavedRoomGuest { savedroom_id: savedroom_id as i64, guest_id: guest_ids[i] },
    )
}

impl SavedRoomGuest {
    /// The rows to insert for the guests `guest_ids` of profile
    /// `savedroom_id`.
    pub fn insert_many(savedroom_id: i32, guest_ids: &Vec<i64>) -> (rows: Vec<SavedRoomGuest>)
        ensures
            rows@ == guest_rows(savedroom_id, guest_ids@),
    {
        let mut rows: Vec<SavedRoomGuest> = Vec::new();
        let mut i: usize = 0;
        while i < guest_ids.len()
            invariant
                i <= guest_ids.len(),
                rows@ == guest_rows(savedroom_id, guest_ids@.take(i as int)),
            decreases guest_ids.len() - i,
        {
            rows.push(SavedRoomGuest { savedroom_id: savedroom_id as i64, guest_id: guest_ids[i] });
            assert(rows@ =~= guest_rows(savedroom_id, guest_ids@.take(i + 1)));
            i += 1;
        }
        assert(guest_ids@.take(i as int) =~= guest_ids@);
        rows
    }
}

} // verus!
