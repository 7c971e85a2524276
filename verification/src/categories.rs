//! The sweep over the placement categories: templates whose category is
//! gone are removed, and rooms that no row knows of are found again.
//!
//! Every category that a template names is resolved on the platform, each
//! once. A category that does not resolve, or resolves to another id, is
//! outdated: the templates that name it go, and with them the profiles saved
//! under them. Under a category that resolves, every voice channel with
//! members becomes a monitored room, owned by the user that the platform
//! records as its owner, or by the bot where it records none; every voice
//! channel without members is deleted.

use crate::gateway::{
    category_views, request_view, response_view, CategoryRecord, CategoryRecordView, ErrorKind,
    Request, RequestView, Response, ResponseView, RoomSnapshot,
};
use crate::records::{
    contains_id, AutoRoom, AutoRoomDeleteStrategy, DeleteStrategyView, MonitoredAutoRoom,
};
use vstd::prelude::*;

verus! {

/// `ids` without repetitions: of each id its first occurrence, in order.
pub open spec fn distinct(ids: Seq<i64>) -> Seq<i64>
    decreases ids.len(),
{
    if ids.len() == 0 {
        Seq::empty()
    } else {
        let before = distinct(ids.drop_last());
        if before.contains(ids.last()) {
            before
        } else {
            before.push(ids.last())
        }
    }
}

/// `distinct(ids)` holds exactly the ids of `ids`, and each of them once.
pub proof fn lemma_distinct(ids: Seq<i64>)
    ensures
        distinct(ids).no_duplicates(),
        forall|id: i64| distinct(ids).contains(id) <==> ids.contains(id),
    decreases ids.len(),
{
    if ids.len() > 0 {
        let shorter = ids.drop_last();
        let before = distinct(shorter);
        lemma_distinct(shorter);
        assert forall|id: i64| distinct(ids).contains(id) <==> ids.contains(id) by {
            if distinct(ids).contains(id) {
                let k = choose|k: int| 0 <= k < distinct(ids).len() && distinct(ids)[k] == id;
                if k < before.len() {
                    assert(before[k] == id);
                    assert(shorter.contains(id));
                    let j = choose|j: int| 0 <= j < shorter.len() && shorter[j] == id;
                    assert(ids[j] == id);
                } else {
                    assert(ids[ids.len() - 1] == id);
                }
            }
            if ids.contains(id) {
                let j = choose|j: int| 0 <= j < ids.len() && ids[j] == id;
                if j < shorter.len() {
                    assert(shorter[j] == id);
                    assert(shorter.contains(id));
                    assert(before.contains(id));
                    let k = choose|k: int| 0 <= k < before.len() && before[k] == id;
                    assert(distinct(ids)[k] == id);
                } else if before.contains(id) {
                } else {
                    assert(distinct(ids)[distinct(ids).len() - 1] == id);
                }
            }
        }
    }
}

/// `ids` without repetitions.
pub fn distinct_ids(ids: &Vec<i64>) -> (once: Vec<i64>)
    ensures
        once@ == distinct(ids@),
{
    let mut once: Vec<i64> = Vec::new();
    let mut i: usize = 0;
    while i < ids.len()
        invariant
            i <= ids.len(),
            once@ == distinct(ids@.take(i as int)),
        decreases ids.len() - i,
    {
        proof {
            assert(ids@.take(i + 1).drop_last() =~= ids@.take(i as int));
        }
        if !contains_id(&once, ids[i]) {
            once.push(ids[i]);
        }
        i += 1;
    }
    assert(ids@.take(i as int) =~= ids@);
    once
}

/// Whether a category is outdated: its lookup failed, or found something
/// with another id.
pub open spec fn is_outdated(record: CategoryRecordView) -> bool {
    record.resolved != Some(record.requested)
}

/// The ids of the outdated categories of `records`, in order.
pub open spec fn outdated_categories(records: Seq<CategoryRecordView>) -> Seq<i64>
    decreases records.len(),
{
    if records.len() == 0 {
        Seq::empty()
    } else {
        let before = outdated_categories(records.drop_last());
        if is_outdated(records.last()) {
            before.push(records.last().requested)
        } else {
            before
        }
    }
}

/// The monitored room that a voice channel found under a category becomes:
/// it belongs to the owner that the platform records, or to the bot.
pub open spec fn adopted_room(child: RoomSnapshot, bot_id: i64) -> MonitoredAutoRoom {
    MonitoredAutoRoom {
        channel_id: child.id,
        owner_id: match child.owner_id {
            Some(owner) => owner,
            None => bot_id,
        },
    }
}

/// The rooms to record for the voice channels `children` of one category:
/// one for each that has members, in order.
pub open spec fn adopted_of(children: Seq<RoomSnapshot>, bot_id: i64) -> Seq<MonitoredAutoRoom>
    decreases children.len(),
{
    if children.len() == 0 {
        Seq::empty()
    } else {
        let before = adopted_of(children.drop_last(), bot_id);
        if children.last().members > 0 {
            before.push(adopted_room(children.last(), bot_id))
        } else {
            before
        }
    }
}

/// The ids of the voice channels among `children` that have no members, in
/// order.
pub open spec fn doomed_of(children: Seq<RoomSnapshot>) -> Seq<i64>
    decreases children.len(),
{
    if children.len() == 0 {
        Seq::empty()
    } else {
        let before = doomed_of(children.drop_last());
        if children.last().members > 0 {
            before
        } else {
            before.push(children.last().id)
        }
    }
}

/// The rooms to record for the categories of `records`: those of each
/// category that is not outdated, category by category.
pub open spec fn adopted_rooms(records: Seq<CategoryRecordView>, bot_id: i64) -> Seq<
    MonitoredAutoRoom,
>
    decreases records.len(),
{
    if records.len() == 0 {
        Seq::empty()
    } else {
        let before = adopted_rooms(records.drop_last(), bot_id);
        if is_outdated(records.last()) {
            before
        } else {
            before + adopted_of(records.last().children, bot_id)
        }
    }
}

/// The ids of the channels to delete for the categories of `records`: those
/// of each category that is not outdated, category by category.
pub open spec fn doomed_rooms(records: Seq<CategoryRecordView>) -> Seq<i64>
    decreases records.len(),
{
    if records.len() == 0 {
        Seq::empty()
    } else {
        let before = doomed_rooms(records.drop_last());
        if is_outdated(records.last()) {
            before
        } else {
            before + doomed_of(records.last().children)
        }
    }
}

/// What a sweep over the categories is to do.
#[derive(Debug)]
pub struct CategoryPlan {
    /// Categories whose templates go.
    pub outdated: Vec<i64>,
    /// Rooms to record unless they are recorded already.
    pub adopted: Vec<MonitoredAutoRoom>,
    /// Channels to delete.
    pub doomed: Vec<i64>,
}

/// A [`CategoryPlan`] as mathematical values.
pub struct CategoryPlanView {
    pub outdated: Seq<i64>,
    pub adopted: Seq<MonitoredAutoRoom>,
    pub doomed: Seq<i64>,
}

impl View for CategoryPlan {
    type V = CategoryPlanView;

    open spec fn view(&self) -> CategoryPlanView {
        CategoryPlanView { outdated: self.outdated@, adopted: self.adopted@, doomed: self.doomed@ }
    }
}

/// What a sweep is to do about `records`, with `bot_id` as the owner of last
/// resort.
pub open spec fn plan_of(records: Seq<CategoryRecordView>, bot_id: i64) -> CategoryPlanView {
    CategoryPlanView {
        outdated: outdated_categories(records),
        adopted: adopted_rooms(records, bot_id),
        doomed: doomed_rooms(records),
    }
}

impl CategoryPlan {
    /// Plans the sweep from what the platform found under each category.
    pub fn of(records: &Vec<CategoryRecord>, bot_id: i64) -> (plan: CategoryPlan)
        ensures
            plan@ == plan_of(category_views(records@), bot_id),
    {
        let mut plan = CategoryPlan {
            outdated: Vec::new(),
            adopted: Vec::new(),
            doomed: Vec::new(),
        };
        let ghost views = category_views(records@);
        let mut i: usize = 0;
        while i < records.len()
            invariant
                i <= records.len(),
                views == category_views(records@),
                plan@ == plan_of(views.take(i as int), bot_id),
            decreases records.len() - i,
        {
            let record = &records[i];
            proof {
                assert(views.take(i + 1).drop_last() =~= views.take(i as int));
                assert(views.take(i + 1).last() == record@);
            }
            let resolves = match record.resolved {
                Some(id) => id == record.requested,
                None => false,
            };
            if !resolves {
                plan.outdated.push(record.requested);
            } else {
                let ghost adopted_before = plan.adopted@;
                let ghost doomed_before = plan.doomed@;
                let mut j: usize = 0;
                while j < record.children.len()
                    invariant
                        j <= record.children.len(),
                        plan.outdated@ == outdated_categories(views.take(i as int)),
                        plan.adopted@ == adopted_before + adopted_of(
                            record.children@.take(j as int),
                            bot_id,
                        ),
                        plan.doomed@ == doomed_before + doomed_of(record.children@.take(j as int)),
                    decreases record.children.len() - j,
                {
                    let child = &record.children[j];
                    proof {
                        assert(record.children@.take(j + 1).drop_last()
                            =~= record.children@.take(j as int));
                    }
                    if child.members > 0 {
                        let owner_id = match child.owner_id {
                            Some(owner) => owner,
                            None => bot_id,
                        };
                        plan.adopted.push(MonitoredAutoRoom { channel_id: child.id, owner_id });
                        assert(plan.adopted@ =~= adopted_before + adopted_of(
                            record.children@.take(j + 1),
                            bot_id,
                        ));
                    } else {
                        plan.doomed.push(child.id);
                        assert(plan.doomed@ =~= doomed_before + doomed_of(
                            record.children@.take(j + 1),
                        ));
                    }
                    j += 1;
                }
                assert(record.children@.take(j as int) =~= record.children@);
            }
            i += 1;
        }
        assert(views.take(i as int) =~= views);
        plan
    }
}

/// What a sweep over the categories counted: the categories it resolved,
/// those among them that were outdated, the rooms it handed to the store to
/// record, and the channels it handed to the platform to delete.
#[derive(Clone, Copy, Debug, PartialEq, Eq, Structural)]
pub struct CategorySummary {
    pub categories: usize,
    pub outdated: usize,
    pub adopted: usize,
    pub deleted: usize,
}

/// How a sweep over the categories ended.
#[derive(Clone, Copy, Debug, PartialEq, Eq, Structural)]
pub enum CategoryOutcome {
    /// The sweep went through.
    Swept(CategorySummary),
    /// The sweep was given up, or one of its two writes to the store failed.
    Failed(ErrorKind),
}

/// Where a sweep over the categories stands.
#[derive(Debug)]
pub enum CategoryState {
    /// Nothing has been asked yet.
    Start { bot_id: i64 },
    /// The store was asked for the categories of the templates.
    Listing { bot_id: i64 },
    /// The platform was asked to resolve the `categories` categories.
    Resolving { bot_id: i64, categories: usize },
    /// The platform was asked to delete the channels without members.
    Deleting { outdated: Vec<i64>, adopted: Vec<MonitoredAutoRoom>, summary: CategorySummary },
    /// The store was asked to remove the templates of the outdated
    /// categories.
    Pruning { adopted: Vec<MonitoredAutoRoom>, summary: CategorySummary },
    /// The store was asked to record the rooms found. `pruned` tells whether
    /// the templates could be removed.
    Adopting { summary: CategorySummary, pruned: bool },
    /// The sweep is over.
    Finished(CategoryOutcome),
}

/// A [`CategoryState`] as mathematical values.
pub enum CategoryStateView {
    Start { bot_id: i64 },
    Listing { bot_id: i64 },
    Resolving { bot_id: i64, categories: usize },
    Deleting { outdated: Seq<i64>, adopted: Seq<MonitoredAutoRoom>, summary: CategorySummary },
    Pruning { adopted: Seq<MonitoredAutoRoom>, summary: CategorySummary },
    Adopting { summary: CategorySummary, pruned: bool },
    Finished(CategoryOutcome),
}

impl View for CategoryState {
    type V = CategoryStateView;

    open spec fn view(&self) -> CategoryStateView {
        match self {
            CategoryState::Start { bot_id } => CategoryStateView::Start { bot_id: *bot_id },
            CategoryState::Listing { bot_id } => CategoryStateView::Listing { bot_id: *bot_id },
            CategoryState::Resolving { bot_id, categories } => CategoryStateView::Resolving {
                bot_id: *bot_id,
                categories: *categories,
            },
            CategoryState::Deleting { outdated, adopted, summary } => CategoryStateView::Deleting {
                outdated: outdated@,
                adopted: adopted@,
                summary: *summary,
            },
            CategoryState::Pruning { adopted, summary } => CategoryStateView::Pruning {
                adopted: adopted@,
                summary: *summary,
            },
            CategoryState::Adopting { summary, pruned } => CategoryStateView::Adopting {
                summary: *summary,
                pruned: *pruned,
            },
            CategoryState::Finished(outcome) => CategoryStateView::Finished(*outcome),
        }
    }
}

/// What a sweep that resolved `categories` categories counts in `records`.
pub open spec fn category_summary_of(
    categories: usize,
    records: Seq<CategoryRecordView>,
    bot_id: i64,
) -> CategorySummary {
    CategorySummary {
        categories,
        outdated: plan_of(records, bot_id).outdated.len() as usize,
        adopted: plan_of(records, bot_id).adopted.len() as usize,
        deleted: plan_of(records, bot_id).doomed.len() as usize,
    }
}

/// The step that a sweep over the categories takes in `state` on `answer`:
/// the state it goes to, and what it asks next, if anything. The two writes
/// to the store do not depend on each other: the rooms are recorded whether
/// or not the templates could be removed.
pub open spec fn category_next(state: CategoryStateView, answer: Option<ResponseView>) -> (
    CategoryStateView,
    Option<RequestView>,
) {
    match state {
        CategoryStateView::Start { bot_id } => (
            CategoryStateView::Listing { bot_id },
            Some(RequestView::AllCategoryIds),
        ),
        CategoryStateView::Listing { bot_id } => match answer {
            Some(ResponseView::CategoryIds(ids)) => (
                CategoryStateView::Resolving {
                    bot_id,
                    categories: distinct(ids).len() as usize,
                },
                Some(RequestView::ResolveCategories(distinct(ids))),
            ),
            Some(ResponseView::Failed) => (
                CategoryStateView::Finished(CategoryOutcome::Failed(ErrorKind::StoreError)),
                None,
            ),
            _ => (
                CategoryStateView::Finished(
                    CategoryOutcome::Failed(ErrorKind::InvariantViolation),
                ),
                None,
            ),
        },
        CategoryStateView::Resolving { bot_id, categories } => match answer {
            Some(ResponseView::Categories(records)) => (
                CategoryStateView::Deleting {
                    outdated: plan_of(records, bot_id).outdated,
                    adopted: plan_of(records, bot_id).adopted,
                    summary: category_summary_of(categories, records, bot_id),
                },
                Some(RequestView::DeleteChannels(plan_of(records, bot_id).doomed)),
            ),
            Some(ResponseView::Failed) => (
                CategoryStateView::Finished(CategoryOutcome::Failed(ErrorKind::PlatformError)),
                None,
            ),
            _ => (
                CategoryStateView::Finished(
                    CategoryOutcome::Failed(ErrorKind::InvariantViolation),
                ),
                None,
            ),
        },
        CategoryStateView::Deleting { outdated, adopted, summary } => (
            CategoryStateView::Pruning { adopted, summary },
            Some(RequestView::DeleteTemplates(DeleteStrategyView::ManyByCategoryId(outdated))),
        ),
        CategoryStateView::Pruning { adopted, summary } => (
            CategoryStateView::Adopting { summary, pruned: answer == Some(ResponseView::Done) },
            Some(RequestView::InsertMonitoredIfAbsent(adopted)),
        ),
        CategoryStateView::Adopting { summary, pruned } => if pruned && answer == Some(
            ResponseView::Done,
        ) {
            (CategoryStateView::Finished(CategoryOutcome::Swept(summary)), None)
        } else {
            (CategoryStateView::Finished(CategoryOutcome::Failed(ErrorKind::StoreError)), None)
        },
        CategoryStateView::Finished(outcome) => (CategoryStateView::Finished(outcome), None),
    }
}

impl CategoryState {
    /// The state in which a sweep begins. Rooms that the platform records no
    /// owner for will belong to `bot_id`.
    pub fn start(bot_id: i64) -> (state: CategoryState)
        ensures
            state@ == (CategoryStateView::Start { bot_id }),
    {
        CategoryState::Start { bot_id }
    }

    /// How the sweep ended, once it has.
    pub fn outcome(&self) -> (outcome: Option<CategoryOutcome>)
        ensures
            outcome == (match self@ {
                CategoryStateView::Finished(o) => Some(o),
                _ => None,
            }),
    {
        match self {
            CategoryState::Finished(o) => Some(*o),
            _ => None,
        }
    }
}

/// One step of the sweep over the categories. The caller begins with
/// [`CategoryState::start`] and no answer, makes the request that a step
/// returns, and hands the answer to the next step, until a step returns no
/// request.
pub fn cleanup_categories_monitored_rooms(state: CategoryState, answer: Option<Response>) -> (next:
    (CategoryState, Option<Request>))
    ensures
        (next.0@, request_view(next.1)) == category_next(state@, response_view(answer)),
{
    match state {
        CategoryState::Start { bot_id } => (
            CategoryState::Listing { bot_id },
            Some(AutoRoom::get_all_category_ids()),
        ),
        CategoryState::Listing { bot_id } => match answer {
            Some(Response::CategoryIds(ids)) => {
                let once = distinct_ids(&ids);
                (
                    CategoryState::Resolving { bot_id, categories: once.len() },
                    Some(Request::ResolveCategories(once)),
                )
            },
            Some(Response::Failed) => (
                CategoryState::Finished(CategoryOutcome::Failed(ErrorKind::StoreError)),
                None,
            ),
            _ => (
                CategoryState::Finished(CategoryOutcome::Failed(ErrorKind::InvariantViolation)),
                None,
            ),
        },
        CategoryState::Resolving { bot_id, categories } => match answer {
            Some(Response::Categories(records)) => {
                let plan = CategoryPlan::of(&records, bot_id);
                let summary = CategorySummary {
                    categories,
                    outdated: plan.outdated.len(),
                    adopted: plan.adopted.len(),
                    deleted: plan.doomed.len(),
                };
                (
                    CategoryState::Deleting {
                        outdated: plan.outdated,
                        adopted: plan.adopted,
                        summary,
                    },
                    Some(Request::DeleteChannels(plan.doomed)),
                )
            },
            Some(Response::Failed) => (
                CategoryState::Finished(CategoryOutcome::Failed(ErrorKind::PlatformError)),
                None,
            ),
            _ => (
                CategoryState::Finished(CategoryOutcome::Failed(ErrorKind::InvariantViolation)),
                None,
            ),
        },
        CategoryState::Deleting { outdated, adopted, summary } => (
            CategoryState::Pruning { adopted, summary },
            Some(AutoRoom::delete(AutoRoomDeleteStrategy::ManyByCategoryId(outdated))),
        ),
        CategoryState::Pruning { adopted, summary } => {
            let pruned = match answer {
                Some(Response::Done) => true,
                _ => false,
            };
            (
                CategoryState::Adopting { summary, pruned },
                Some(Request::InsertMonitoredIfAbsent(adopted)),
            )
        },
        CategoryState::Adopting { summary, pruned } => {
            let recorded = match answer {
                Some(Response::Done) => true,
                _ => false,
            };
            if pruned && recorded {
                (CategoryState::Finished(CategoryOutcome::Swept(summary)), None)
            } else {
                (CategoryState::Finished(CategoryOutcome::Failed(ErrorKind::StoreError)), None)
            }
        },
        CategoryState::Finished(outcome) => (CategoryState::Finished(outcome), None),
    }
}

} // verus!
