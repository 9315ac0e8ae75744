//! The listing of the pod's containers.
//!
//! The container runtime reports each container as a [`ContainerRecord`].
//! A listing leaves out the pod's infrastructure container, reads the name
//! and the state of every other one, and orders them by state.

use crate::commands::{ItemView, ListContainerItem, ListContainerResponse, PodmanState};
use crate::text::same_text;
use vstd::prelude::*;
use vstd::string::*;

verus! {

/// What the container runtime tells of one container.
#[derive(Clone, Debug)]
pub struct ContainerRecord {
    pub id: Option<String>,
    pub names: Option<Vec<String>>,
    pub state: Option<String>,
    pub is_infra: Option<bool>,
    pub started_at: Option<i64>,
    pub exited_at: Option<i64>,
}

/// What the container runtime asks a container to do.
#[derive(PartialEq, Eq, Structural, Debug, Copy, Clone)]
pub enum ContainerAction {
    Start,
    Stop,
}

/// The state that the runtime's word for it names. A word that is none of
/// `running`, `exited` and `stopping` reads as stopped.
pub open spec fn state_named(word: Seq<char>) -> PodmanState {
    if word == "running"@ {
        PodmanState::Running
    } else if word == "exited"@ {
        PodmanState::Exited
    } else if word == "stopping"@ {
        PodmanState::Stopping
    } else {
        PodmanState::Stopped
    }
}

/// The state of a record: that of its word, and stopped where it has none.
pub open spec fn state_of(record: ContainerRecord) -> PodmanState {
    match record.state {
        Some(word) => state_named(word@),
        None => PodmanState::Stopped,
    }
}

/// The name of a record: the first of its names, and `unknown` where it has
/// none.
pub open spec fn name_of(record: ContainerRecord) -> Seq<char> {
    match record.names {
        Some(names) => if names@.len() > 0 {
            names@[0]@
        } else {
            "unknown"@
        },
        None => "unknown"@,
    }
}

/// Whether a record is the pod's infrastructure container.
pub open spec fn is_infra(record: ContainerRecord) -> bool {
    record.is_infra == Some(true)
}

/// The item that a listing shows for a record.
pub open spec fn item_of(record: ContainerRecord) -> ItemView {
    ItemView {
        id: match record.id {
            Some(id) => Some(id@),
            None => None,
        },
        name: name_of(record),
        state: state_of(record),
        started_at: record.started_at,
        exited_at: record.exited_at,
    }
}

/// The items for the records that are not infrastructure, in order.
pub open spec fn listed(records: Seq<ContainerRecord>) -> Seq<ItemView> {
    records.filter(|r: ContainerRecord| !is_infra(r)).map_values(|r: ContainerRecord| item_of(r))
}

/// The items that are in `state`, in order.
pub open spec fn in_state(items: Seq<ItemView>, state: PodmanState) -> Seq<ItemView> {
    items.filter(|item: ItemView| item.state == state)
}

/// The items ordered by state: the running ones, then the stopping, the
/// stopped and the exited ones, those of one state in the order they had.
pub open spec fn by_state(items: Seq<ItemView>) -> Seq<ItemView> {
    in_state(items, PodmanState::Running) + in_state(items, PodmanState::Stopping) + in_state(
        items,
        PodmanState::Stopped,
    ) + in_state(items, PodmanState::Exited)
}

/// What the items of a listing hold, in order.
pub open spec fn item_views(items: Seq<ListContainerItem>) -> Seq<ItemView> {
    items.map_values(|item: ListContainerItem| item@)
}

/// The place of a state in the order of a listing.
pub open spec fn rank(state: PodmanState) -> nat {
    match state {
        PodmanState::Running => 0,
        PodmanState::Stopping => 1,
        PodmanState::Stopped => 2,
        PodmanState::Exited => 3,
    }
}

/// What the runtime is asked to do so that a container gets into `state`:
/// to start it for `Running`, to stop it for any other state.
pub fn action_for(state: PodmanState) -> (action: ContainerAction)
    ensures
        action == (if state == PodmanState::Running {
            ContainerAction::Start
        } else {
            ContainerAction::Stop
        }),
{
    match state {
        PodmanState::Running => ContainerAction::Start,
        _ => ContainerAction::Stop,
    }
}

/// Reads the runtime's word for a state.
pub fn parse_state(word: &str) -> (state: PodmanState)
    ensures
        state == state_named(word@),
{
    if same_text(word, "running") {
        PodmanState::Running
    } else if same_text(word, "exited") {
        PodmanState::Exited
    } else if same_text(word, "stopping") {
        PodmanState::Stopping
    } else {
        PodmanState::Stopped
    }
}

/// The item that a listing shows for `record`.
pub fn item_from(record: ContainerRecord) -> (item: ListContainerItem)
    ensures
        item@ == item_of(record),
{
    let name = match &record.names {
        Some(names) => if names.len() > 0 {
            names[0].clone()
        } else {
            String::from_str("unknown")
        },
        None => String::from_str("unknown"),
    };
    let state = match &record.state {
        Some(word) => parse_state(word.as_str()),
        None => PodmanState::Stopped,
    };
    ListContainerItem {
        id: record.id,
        name,
        state,
        started_at: record.started_at,
        exited_at: record.exited_at,
    }
}

/// The items for the records that are not infrastructure, in order.
pub fn keep_listed(records: Vec<ContainerRecord>) -> (items: Vec<ListContainerItem>)
    ensures
        item_views(items@) == listed(records@),
{
    let mut items: Vec<ListContainerItem> = Vec::new();
    proof {
        reveal(Seq::filter);
        assert(item_views(items@) =~= listed(records@.take(0)));
    }
    for record in it: records
        invariant
            it.seq() == records@,
            item_views(items@) == listed(it.seq().take(it.index() as int)),
    {
        let ghost seen = it.seq().take(it.index() as int);
        let ghost kept = seen.filter(|r: ContainerRecord| !is_infra(r));
        proof {
            assert(it.seq().take(it.index() + 1) =~= seen.push(record));
            seen.lemma_filter_push(record, |r: ContainerRecord| !is_infra(r));
        }
        let infra = match record.is_infra {
            Some(flag) => flag,
            None => false,
        };
        if !infra {
            let item = item_from(record);
            let ghost before = items@;
            items.push(item);
            assert(item_views(items@) =~= item_views(before).push(item@));
            assert(kept.push(record).map_values(|r: ContainerRecord| item_of(r)) =~= kept.map_values(
                |r: ContainerRecord| item_of(r),
            ).push(item_of(record)));
        }
    }
    assert(records@.take(records@.len() as int) =~= records@);
    items
}

/// Orders the items by state, keeping the order of those that share one.
pub fn sort_by_state(items: Vec<ListContainerItem>) -> (sorted: Vec<ListContainerItem>)
    ensures
        item_views(sorted@) == by_state(item_views(items@)),
{
    let mut running: Vec<ListContainerItem> = Vec::new();
    let mut stopping: Vec<ListContainerItem> = Vec::new();
    let mut stopped: Vec<ListContainerItem> = Vec::new();
    let mut exited: Vec<ListContainerItem> = Vec::new();
    proof {
        reveal(Seq::filter);
        let none = item_views(items@.take(0));
        assert(none =~= Seq::<ItemView>::empty());
        assert(item_views(running@) =~= in_state(none, PodmanState::Running));
        assert(item_views(stopping@) =~= in_state(none, PodmanState::Stopping));
        assert(item_views(stopped@) =~= in_state(none, PodmanState::Stopped));
        assert(item_views(exited@) =~= in_state(none, PodmanState::Exited));
    }
    for item in it: items
        invariant
            it.seq() == items@,
            item_views(running@) == in_state(
                item_views(it.seq().take(it.index() as int)),
                PodmanState::Running,
            ),
            item_views(stopping@) == in_state(
                item_views(it.seq().take(it.index() as int)),
                PodmanState::Stopping,
            ),
            item_views(stopped@) == in_state(
                item_views(it.seq().take(it.index() as int)),
                PodmanState::Stopped,
            ),
            item_views(exited@) == in_state(
                item_views(it.seq().take(it.index() as int)),
                PodmanState::Exited,
            ),
    {
        let ghost seen = item_views(it.seq().take(it.index() as int));
        proof {
            assert(item_views(it.seq().take(it.index() + 1)) =~= seen.push(item@));
            seen.lemma_filter_push(item@, |i: ItemView| i.state == PodmanState::Running);
            seen.lemma_filter_push(item@, |i: ItemView| i.state == PodmanState::Stopping);
            seen.lemma_filter_push(item@, |i: ItemView| i.state == PodmanState::Stopped);
            seen.lemma_filter_push(item@, |i: ItemView| i.state == PodmanState::Exited);
        }
        let ghost r = running@;
        let ghost g = stopping@;
        let ghost d = stopped@;
        let ghost e = exited@;
        match item.state {
            PodmanState::Running => {
                running.push(item);
                assert(item_views(running@) =~= item_views(r).push(item@));
            },
            PodmanState::Stopping => {
                stopping.push(item);
                assert(item_views(stopping@) =~= item_views(g).push(item@));
            },
            PodmanState::Stopped => {
                stopped.push(item);
                assert(item_views(stopped@) =~= item_views(d).push(item@));
            },
            PodmanState::Exited => {
                exited.push(item);
                assert(item_views(exited@) =~= item_views(e).push(item@));
            },
        }
    }
    assert(items@.take(items@.len() as int) =~= items@);
    let ghost r = running@;
    let ghost g = stopping@;
    let ghost d = stopped@;
    let ghost e = exited@;
    running.append(&mut stopping);
    running.append(&mut stopped);
    running.append(&mut exited);
    assert(item_views(running@) =~= item_views(r) + item_views(g) + item_views(d) + item_views(e));
    running
}

/// The listing for the records that the runtime gave: the containers that
/// are not infrastructure, ordered by state.
pub fn list_items(records: Vec<ContainerRecord>) -> (items: Vec<ListContainerItem>)
    ensures
        item_views(items@) == by_state(listed(records@)),
{
    sort_by_state(keep_listed(records))
}

/// The answer to a request for the containers, from what the runtime gave:
/// the listing of its records, or the failure it reported.
pub fn containers_list(outcome: Result<Vec<ContainerRecord>, String>) -> (response:
    ListContainerResponse)
    ensures
        match outcome {
            Ok(records) => response matches ListContainerResponse::Listed(items) && item_views(
                items@,
            ) == by_state(listed(records@)),
            Err(reason) => response == ListContainerResponse::Failed(reason),
        },
{
    match outcome {
        Ok(records) => ListContainerResponse::Listed(list_items(records)),
        Err(reason) => ListContainerResponse::Failed(reason),
    }
}

} // verus!
