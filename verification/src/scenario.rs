//! The workload scenario: two nodes open a payment channel, pay each other
//! once, and close the channel by force. Each node persists the state of its
//! channel monitor under an update identifier; the scenario says what is done
//! in which order and what both stores have to show in between.

use vstd::prelude::*;

verus! {

/// What one node does in the scenario.
#[derive(Clone, Copy, Debug, PartialEq, Eq, Structural)]
pub enum Action {
    /// Opens an announced channel to the other node.
    OpenChannel,
    /// Sends a payment of the amount, in millisatoshi, to the other node.
    SendPayment(u64),
    /// Closes the channel by force and broadcasts its latest transaction.
    ForceClose,
    /// Sees the closing transaction confirmed in a block.
    ConfirmCloseOnChain,
}

/// One event of the scenario: a node, 0 or 1, and what it does.
#[derive(Clone, Copy, Debug, PartialEq, Eq, Structural)]
pub struct Event {
    pub node: usize,
    pub action: Action,
}

/// What the stores of both nodes have to show.
#[derive(Clone, Copy, Debug, PartialEq, Eq, Structural)]
pub enum Expectation {
    /// No monitor is persisted.
    NoMonitor,
    /// Exactly one monitor is persisted, under this update identifier.
    UpdateId(u64),
    /// The stores are not looked at.
    Unchecked,
}

/// The update identifier that marks a channel as closed for good. It is the
/// largest identifier, so no update can follow it.
pub open spec fn closed_marker() -> u64 {
    0xffff_ffff_ffff_ffff
}

/// The number of events in the scenario.
pub open spec fn event_count() -> nat {
    5
}

/// The events of the scenario, in order.
pub open spec fn events() -> Seq<Event> {
    seq![
        Event { node: 0, action: Action::OpenChannel },
        Event { node: 0, action: Action::SendPayment(8000000) },
        Event { node: 1, action: Action::SendPayment(4000000) },
        Event { node: 0, action: Action::ForceClose },
        Event { node: 1, action: Action::ConfirmCloseOnChain },
    ]
}

/// What the stores have to show once `done` events have taken place. A
/// channel that is opened starts at 0, each payment takes the identifier up
/// by 5, and the closure leaves the closed marker. Between the forced closure
/// and its confirmation the stores are not looked at.
pub open spec fn expected_after(done: nat) -> Expectation {
    if done == 0 {
        Expectation::NoMonitor
    } else if done == 1 {
        Expectation::UpdateId(0)
    } else if done == 2 {
        Expectation::UpdateId(5)
    } else if done == 3 {
        Expectation::UpdateId(10)
    } else if done == 5 {
        Expectation::UpdateId(closed_marker())
    } else {
        Expectation::Unchecked
    }
}

/// The update identifiers of the monitors in one store meet the expectation.
pub open spec fn store_shows(update_ids: Seq<u64>, expectation: Expectation) -> bool {
    match expectation {
        Expectation::NoMonitor => update_ids.len() == 0,
        Expectation::UpdateId(id) => update_ids == seq![id],
        Expectation::Unchecked => true,
    }
}

/// Reads `lightning::chain::channelmonitor::CLOSED_CHANNEL_UPDATE_ID`.
/// Trusted: that it is the largest 64-bit number.
#[verifier::external_body]
fn closed_channel_update_id() -> (id: u64)
    ensures
        id == closed_marker(),
{
    lightning::chain::channelmonitor::CLOSED_CHANNEL_UPDATE_ID
}

/// The event that follows once `done` events have taken place, if one does.
pub fn next_event(done: usize) -> (next: Option<Event>)
    ensures
        done < event_count() ==> next == Some(events()[done as int]),
        done >= event_count() ==> next is None,
        next matches Some(event) ==> event.node < 2,
{
    if done == 0 {
        Some(Event { node: 0, action: Action::OpenChannel })
    } else if done == 1 {
        Some(Event { node: 0, action: Action::SendPayment(8000000) })
    } else if done == 2 {
        Some(Event { node: 1, action: Action::SendPayment(4000000) })
    } else if done == 3 {
        Some(Event { node: 0, action: Action::ForceClose })
    } else if done == 4 {
        Some(Event { node: 1, action: Action::ConfirmCloseOnChain })
    } else {
        None
    }
}

/// What the stores have to show once `done` events have taken place.
pub fn expectation(done: usize) -> (expected: Expectation)
    ensures
        expected == expected_after(done as nat),
{
    if done == 0 {
        Expectation::NoMonitor
    } else if done == 1 {
        Expectation::UpdateId(0)
    } else if done == 2 {
        Expectation::UpdateId(5)
    } else if done == 3 {
        Expectation::UpdateId(10)
    } else if done == 5 {
        Expectation::UpdateId(closed_channel_update_id())
    } else {
        Expectation::Unchecked
    }
}

/// Whether the update identifiers in one store meet the expectation.
fn shows(update_ids: &Vec<u64>, expectation: Expectation) -> (met: bool)
    ensures
        met == store_shows(update_ids@, expectation),
{
    match expectation {
        Expectation::NoMonitor => update_ids.len() == 0,
        Expectation::UpdateId(id) => {
            if update_ids.len() == 1 && update_ids[0] == id {
                assert(update_ids@ =~= seq![id]);
                true
            } else {
                false
            }
        },
        Expectation::Unchecked => true,
    }
}

/// Whether the stores of both nodes show what is expected once `done` events
/// have taken place. Each argument holds the update identifiers of the
/// monitors that one node has persisted.
pub fn check_persisted_data(update_ids_0: &Vec<u64>, update_ids_1: &Vec<u64>, done: usize) -> (met:
    bool)
    ensures
        met == (store_shows(update_ids_0@, expected_after(done as nat)) && store_shows(
            update_ids_1@,
            expected_after(done as nat),
        )),
{
    let expected = expectation(done);
    shows(update_ids_0, expected) && shows(update_ids_1, expected)
}

/// Through the scenario the update identifier only grows: of two looks at the
/// stores that each expect an identifier, the later one expects the larger.
pub proof fn update_ids_increase(earlier: nat, later: nat)
    requires
        earlier < later,
        expected_after(earlier) is UpdateId,
        expected_after(later) is UpdateId,
    ensures
        expected_after(earlier)->UpdateId_0 < expected_after(later)->UpdateId_0,
{
}

/// From the opening of the channel on, a store that meets the expectation
/// holds exactly one monitor: never none, never more than one.
pub proof fn one_monitor_throughout(update_ids: Seq<u64>, done: nat)
    requires
        done > 0,
        expected_after(done) != Expectation::Unchecked,
        store_shows(update_ids, expected_after(done)),
    ensures
        update_ids.len() == 1,
{
}

/// The scenario ends on the closed marker, which no identifier exceeds.
pub proof fn scenario_ends_closed(id: u64)
    ensures
        expected_after(event_count()) == Expectation::UpdateId(closed_marker()),
        id <= closed_marker(),
{
}

} // verus!
