//! The fields of a resource that are read from the indexes and from the
//! events that affected it: its container, its contents, its stage and its
//! state.

use vstd::prelude::*;
use crate::attributes::{EconomicEventAddress, EconomicResourceAddress, ProcessSpecificationAddress};
use crate::economic_event::ActionId;
use crate::economic_resource::rpc::{link_fields_of, LinkFields};
use crate::economic_resource::storage::{
    RESOURCE_AFFECTED_BY_EVENT_LINK_TYPE, RESOURCE_CONTAINED_IN_LINK_TYPE, RESOURCE_CONTAINS_LINK_TYPE,
};
use crate::errors::DataIntegrityError;
use crate::identity::RecordAddress;
use crate::indexes::{IndexState, IndexStore};
use crate::sequences::{is_latest_match, latest_match};
use crate::records::{RecordStore, StoreState};

verus! {

/// Whether an action settles the state of a resource.
pub open spec fn is_verdict(action: Seq<char>) -> bool {
    action == "pass"@ || action == "fail"@
}

/// The state that one event gives a resource: its action, where the event
/// can be read and the action is `pass` or `fail`.
pub open spec fn state_of_event(
    events: StoreState<crate::economic_event::EntryData>,
    event_entry_def: Seq<char>,
    event: EconomicEventAddress,
) -> Option<ActionId> {
    match events.read(event_entry_def, RecordAddress::Identity(event)) {
        Ok((_, _, entry)) => if is_verdict(entry.action@) {
            Some(entry.action)
        } else {
            None
        },
        Err(_) => None,
    }
}

/// The state that the first `n` of the events `affecting` a resource give it:
/// the action of the latest among them that can be read and that is `pass` or
/// `fail`. An event that cannot be read is passed over.
pub open spec fn state_among(
    events: StoreState<crate::economic_event::EntryData>,
    event_entry_def: Seq<char>,
    affecting: Seq<EconomicEventAddress>,
    n: int,
) -> Option<ActionId>
    decreases n,
{
    if n <= 0 {
        None
    } else {
        match state_of_event(events, event_entry_def, affecting[n - 1]) {
            Some(state) => Some(state),
            None => state_among(events, event_entry_def, affecting, n - 1),
        }
    }
}

/// The specification that one event leads to: that of the process whose
/// output the event is, where the event and the process can both be read.
pub open spec fn stage_of_event(
    events: StoreState<crate::economic_event::EntryData>,
    processes: StoreState<crate::process::EntryData>,
    event_entry_def: Seq<char>,
    process_entry_def: Seq<char>,
    event: EconomicEventAddress,
) -> Option<ProcessSpecificationAddress> {
    match events.read(event_entry_def, RecordAddress::Identity(event)) {
        Ok((_, _, entry)) => match entry.output_of {
            Some(output_of) => match processes.read(process_entry_def, RecordAddress::Identity(output_of)) {
                Ok((_, _, process_entry)) => process_entry.based_on,
                Err(_) => None,
            },
            None => None,
        },
        Err(_) => None,
    }
}

/// The stage that the first `n` of the events `affecting` a resource give it:
/// the specification that the latest among them leads to which leads to one.
pub open spec fn stage_among(
    events: StoreState<crate::economic_event::EntryData>,
    processes: StoreState<crate::process::EntryData>,
    event_entry_def: Seq<char>,
    process_entry_def: Seq<char>,
    affecting: Seq<EconomicEventAddress>,
    n: int,
) -> Option<ProcessSpecificationAddress>
    decreases n,
{
    if n <= 0 {
        None
    } else {
        match stage_of_event(events, processes, event_entry_def, process_entry_def, affecting[n - 1]) {
            Some(stage) => Some(stage),
            None => stage_among(events, processes, event_entry_def, process_entry_def, affecting, n - 1),
        }
    }
}

/// The events that affected a resource, oldest first.
pub open spec fn affecting_events(indexes: IndexState, resource: EconomicResourceAddress) -> Seq<
    EconomicEventAddress,
> {
    indexes.targets(resource, RESOURCE_AFFECTED_BY_EVENT_LINK_TYPE@)
}

/// The state of a resource: what its events, read from the newest back, say
/// first.
pub open spec fn resource_state(
    events: StoreState<crate::economic_event::EntryData>,
    indexes: IndexState,
    event_entry_def: Seq<char>,
    resource: EconomicResourceAddress,
) -> Option<ActionId> {
    let affecting = affecting_events(indexes, resource);
    state_among(events, event_entry_def, affecting, affecting.len() as int)
}

/// The stage of a resource: what its events, read from the newest back, say
/// first.
pub open spec fn resource_stage(
    events: StoreState<crate::economic_event::EntryData>,
    processes: StoreState<crate::process::EntryData>,
    indexes: IndexState,
    event_entry_def: Seq<char>,
    process_entry_def: Seq<char>,
    resource: EconomicResourceAddress,
) -> Option<ProcessSpecificationAddress> {
    let affecting = affecting_events(indexes, resource);
    stage_among(events, processes, event_entry_def, process_entry_def, affecting, affecting.len() as int)
}

/// Reads all the events that affected a resource, oldest first.
pub fn get_affecting_events(indexes: &IndexStore, resource: &EconomicResourceAddress) -> (events: Result<
    Vec<EconomicEventAddress>,
    DataIntegrityError,
>)
    ensures
        events matches Ok(list) && list@ == affecting_events(indexes@, *resource),
{
    Ok(indexes.read_index(*resource, RESOURCE_AFFECTED_BY_EVENT_LINK_TYPE))
}

/// Whether an action settles the state of a resource.
fn settles_state(action: &ActionId) -> (verdict: bool)
    ensures
        verdict == is_verdict(action@),
{
    let pass = "pass".to_owned();
    let fail = "fail".to_owned();
    action.id == pass || action.id == fail
}

/// The state that one event gives a resource.
fn get_event_state(
    events: &RecordStore<crate::economic_event::EntryData>,
    event_entry_def_id: &str,
    event: &EconomicEventAddress,
) -> (state: Option<ActionId>)
    ensures
        state == state_of_event(events@, event_entry_def_id@, *event),
{
    match events.peek_record_entry(event_entry_def_id, &RecordAddress::Identity(*event)) {
        Err(_) => None,
        Ok((_, _, entry)) => {
            if settles_state(&entry.action) {
                Some(entry.action.clone())
            } else {
                None
            }
        },
    }
}

/// The stage that one event leads to.
fn get_event_stage(
    events: &RecordStore<crate::economic_event::EntryData>,
    processes: &RecordStore<crate::process::EntryData>,
    event_entry_def_id: &str,
    process_entry_def_id: &str,
    event: &EconomicEventAddress,
) -> (stage: Option<ProcessSpecificationAddress>)
    ensures
        stage == stage_of_event(events@, processes@, event_entry_def_id@, process_entry_def_id@, *event),
{
    match events.peek_record_entry(event_entry_def_id, &RecordAddress::Identity(*event)) {
        Err(_) => None,
        Ok((_, _, entry)) => {
            match entry.output_of {
                None => None,
                Some(output_of) => {
                    match processes.peek_record_entry(process_entry_def_id, &RecordAddress::Identity(output_of)) {
                        Err(_) => None,
                        Ok((_, _, process_entry)) => process_entry.based_on,
                    }
                },
            }
        },
    }
}

/// The latest match of a scan is what the scan gives item by item, from the
/// newest back, where what is picked depends on the item alone.
proof fn latest_match_is_the_scan<R, F: Fn(&EconomicEventAddress) -> Option<R>>(
    affecting: Seq<EconomicEventAddress>,
    pick: F,
    found: Option<R>,
    of_event: spec_fn(EconomicEventAddress) -> Option<R>,
    scan: spec_fn(int) -> Option<R>,
    n: int,
)
    requires
        0 <= n <= affecting.len(),
        is_latest_match(affecting.take(n), pick, found),
        forall|event: EconomicEventAddress, picked: Option<R>|
            call_ensures(pick, (&event,), picked) ==> picked == of_event(event),
        scan(0) is None,
        forall|k: int|
            0 < k <= affecting.len() ==> #[trigger] scan(k) == (match of_event(affecting[k - 1]) {
                Some(value) => Some(value),
                None => scan(k - 1),
            }),
    ensures
        found == scan(n),
    decreases n,
{
    let items = affecting.take(n);
    if n > 0 {
        assert(items[n - 1] == affecting[n - 1]);
        match found {
            Some(value) => {
                let i = choose|i: int|
                    {
                        &&& 0 <= i < items.len()
                        &&& #[trigger] call_ensures(pick, (&items[i],), Some(value))
                        &&& forall|j: int|
                            i < j < items.len() ==> #[trigger] call_ensures(pick, (&items[j],), None::<R>)
                    };
                if i < n - 1 {
                    assert(call_ensures(pick, (&items[n - 1],), None::<R>));
                    assert(of_event(affecting[n - 1]) is None);
                    assert(affecting.take(n - 1) =~= items.take(n - 1));
                    assert(is_latest_match(affecting.take(n - 1), pick, found)) by {
                        let shorter = affecting.take(n - 1);
                        assert(shorter[i] == items[i]);
                        assert forall|j: int| i < j < shorter.len() implies #[trigger] call_ensures(
                            pick,
                            (&shorter[j],),
                            None::<R>,
                        ) by {
                            assert(shorter[j] == items[j]);
                        }
                    }
                    latest_match_is_the_scan(affecting, pick, found, of_event, scan, n - 1);
                } else {
                    assert(of_event(affecting[n - 1]) == Some(value));
                }
            },
            None => {
                assert(call_ensures(pick, (&items[n - 1],), None::<R>));
                assert(of_event(affecting[n - 1]) is None);
                assert(is_latest_match(affecting.take(n - 1), pick, found)) by {
                    let shorter = affecting.take(n - 1);
                    assert forall|j: int| 0 <= j < shorter.len() implies #[trigger] call_ensures(
                        pick,
                        (&shorter[j],),
                        None::<R>,
                    ) by {
                        assert(shorter[j] == items[j]);
                    }
                }
                latest_match_is_the_scan(affecting, pick, found, of_event, scan, n - 1);
            },
        }
    } else {
        match found {
            Some(value) => {
                assert(items.len() == 0);
            },
            None => {},
        }
    }
}

/// The current state of a resource: the most recent `pass` or `fail` among
/// the events that affected it.
fn get_resource_state(
    events: &RecordStore<crate::economic_event::EntryData>,
    indexes: &IndexStore,
    event_entry_def_id: &str,
    resource: &EconomicResourceAddress,
) -> (state: Result<Option<ActionId>, DataIntegrityError>)
    ensures
        state matches Ok(found) && found == resource_state(events@, indexes@, event_entry_def_id@, *resource),
{
    let affecting = match get_affecting_events(indexes, resource) {
        Ok(list) => list,
        Err(error) => {
            return Err(error);
        },
    };
    let pick = |event: &EconomicEventAddress| -> (picked: Option<ActionId>)
        ensures
            picked == state_of_event(events@, event_entry_def_id@, *event),
        { get_event_state(events, event_entry_def_id, event) };
    let found = latest_match(&affecting, pick);
    proof {
        assert(affecting@.take(affecting@.len() as int) == affecting@);
        latest_match_is_the_scan(
            affecting@,
            pick,
            found,
            |event: EconomicEventAddress| state_of_event(events@, event_entry_def_id@, event),
            |n: int| state_among(events@, event_entry_def_id@, affecting@, n),
            affecting@.len() as int,
        );
    }
    Ok(found)
}

/// The current stage of a resource: the specification of the process that
/// most recently put it out.
fn get_resource_stage(
    events: &RecordStore<crate::economic_event::EntryData>,
    processes: &RecordStore<crate::process::EntryData>,
    indexes: &IndexStore,
    event_entry_def_id: &str,
    process_entry_def_id: &str,
    resource: &EconomicResourceAddress,
) -> (stage: Result<Option<ProcessSpecificationAddress>, DataIntegrityError>)
    ensures
        stage matches Ok(found) && found == resource_stage(
            events@,
            processes@,
            indexes@,
            event_entry_def_id@,
            process_entry_def_id@,
            *resource,
        ),
{
    let affecting = match get_affecting_events(indexes, resource) {
        Ok(list) => list,
        Err(error) => {
            return Err(error);
        },
    };
    let pick = |event: &EconomicEventAddress| -> (picked: Option<ProcessSpecificationAddress>)
        ensures
            picked == stage_of_event(
                events@,
                processes@,
                event_entry_def_id@,
                process_entry_def_id@,
                *event,
            ),
        { get_event_stage(events, processes, event_entry_def_id, process_entry_def_id, event) };
    let found = latest_match(&affecting, pick);
    proof {
        assert(affecting@.take(affecting@.len() as int) == affecting@);
        latest_match_is_the_scan(
            affecting@,
            pick,
            found,
            |event: EconomicEventAddress|
                stage_of_event(events@, processes@, event_entry_def_id@, process_entry_def_id@, event),
            |n: int|
                stage_among(events@, processes@, event_entry_def_id@, process_entry_def_id@, affecting@, n),
            affecting@.len() as int,
        );
    }
    Ok(found)
}

/// The link fields of a resource as the stores and indexes give them.
pub open spec fn link_fields(
    events: StoreState<crate::economic_event::EntryData>,
    processes: StoreState<crate::process::EntryData>,
    indexes: IndexState,
    event_entry_def: Seq<char>,
    process_entry_def: Seq<char>,
    resource: EconomicResourceAddress,
) -> LinkFields {
    let containers = indexes.targets(resource, RESOURCE_CONTAINED_IN_LINK_TYPE@);
    LinkFields {
        contained_in: if containers.len() > 0 {
            Some(containers.last())
        } else {
            None
        },
        stage: resource_stage(events, processes, indexes, event_entry_def, process_entry_def, resource),
        state: resource_state(events, indexes, event_entry_def, resource),
        contains: indexes.targets(resource, RESOURCE_CONTAINS_LINK_TYPE@),
    }
}

/// Reads the link fields of a resource: the resource that it was most
/// recently put in, its stage, its state, and the resources in it.
pub fn get_link_fields(
    events: &RecordStore<crate::economic_event::EntryData>,
    processes: &RecordStore<crate::process::EntryData>,
    indexes: &IndexStore,
    event_entry_def_id: &str,
    process_entry_def_id: &str,
    resource: &EconomicResourceAddress,
) -> (links: Result<
    (
        Option<EconomicResourceAddress>,
        Option<ProcessSpecificationAddress>,
        Option<ActionId>,
        Vec<EconomicResourceAddress>,
    ),
    DataIntegrityError,
>)
    ensures
        links matches Ok(fields) && link_fields_of(fields) == link_fields(
            events@,
            processes@,
            indexes@,
            event_entry_def_id@,
            process_entry_def_id@,
            *resource,
        ),
{
    let mut containers = indexes.read_index(*resource, RESOURCE_CONTAINED_IN_LINK_TYPE);
    let contained_in = containers.pop();
    let stage = match get_resource_stage(
        events,
        processes,
        indexes,
        event_entry_def_id,
        process_entry_def_id,
        resource,
    ) {
        Ok(found) => found,
        Err(error) => {
            return Err(error);
        },
    };
    let state = match get_resource_state(events, indexes, event_entry_def_id, resource) {
        Ok(found) => found,
        Err(error) => {
            return Err(error);
        },
    };
    let contains = indexes.read_index(*resource, RESOURCE_CONTAINS_LINK_TYPE);
    Ok((contained_in, stage, state, contains))
}

} // verus!
