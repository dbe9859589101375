//! What holds of every run of the orchestrator: a capture session, once
//! triggered, ends only with the delivery of its whole frame, and no second
//! trigger falls into it.

use vstd::prelude::*;
use crate::frame::GRAY_FRAME_BYTES;
use crate::orchestrator::{Action, Event, Machine};

verus! {

/// One thing that happens to the orchestrator: an event is handed to it, or
/// a window of some size is filled.
pub enum Move {
    /// The event is handed to the orchestrator.
    Observe(Event),
    /// A window of this many bytes is filled.
    Fill(nat),
}

/// The state after one move.
pub open spec fn after_move(machine: Machine, step: Move) -> Machine {
    match step {
        Move::Observe(event) => machine.after_event(event),
        Move::Fill(window) => machine.after_fill(window),
    }
}

/// The state after the given moves, in order.
pub open spec fn run(machine: Machine, moves: Seq<Move>) -> Machine
    decreases moves.len(),
{
    if moves.len() == 0 {
        machine
    } else {
        after_move(run(machine, moves.drop_last()), moves.last())
    }
}

/// Whether move `k` of a run is answered with the trigger of a capture.
pub open spec fn triggers_at(machine: Machine, moves: Seq<Move>, k: int) -> bool {
    match moves[k] {
        Move::Observe(event) => run(machine, moves.take(k)).action_on(event)
            == Action::TriggerCapture,
        Move::Fill(window) => false,
    }
}

/// Whether move `k` of a run ends a session with its whole frame delivered.
pub open spec fn completes_at(machine: Machine, moves: Seq<Move>, k: int) -> bool {
    let before = run(machine, moves.take(k));
    &&& before.triggered
    &&& before.delivered == GRAY_FRAME_BYTES
    &&& !run(machine, moves.take(k + 1)).triggered
}

/// Within a session no event triggers a capture, whatever the event is and
/// whatever the machine awaits; the session goes on unless its whole frame
/// is delivered; and its count of delivered bytes is kept.
pub proof fn no_trigger_within_session(machine: Machine, event: Event)
    requires
        machine.wf(),
        machine.triggered,
    ensures
        machine.action_on(event) != Action::TriggerCapture,
        machine.after_event(event).triggered || machine.delivered == GRAY_FRAME_BYTES,
        machine.after_event(event).delivered == machine.delivered,
{
}

/// A trigger is answered only outside a session, and it begins one, at zero
/// delivered bytes.
pub proof fn trigger_begins_session(machine: Machine, event: Event)
    requires
        machine.wf(),
        machine.action_on(event) == Action::TriggerCapture,
    ensures
        !machine.triggered,
        machine.after_event(event).triggered,
        !machine.after_event(event).streaming,
        machine.after_event(event).delivered == 0,
{
}

/// Filling a window never begins or ends a session and never takes the
/// count of delivered bytes back or beyond one frame.
pub proof fn fill_keeps_session(machine: Machine, window: nat)
    requires
        machine.wf(),
    ensures
        machine.after_fill(window).triggered == machine.triggered,
        machine.delivered <= machine.after_fill(window).delivered <= GRAY_FRAME_BYTES,
{
}

/// The burst read spans exactly one frame: it is started within a session
/// that has delivered nothing, windows are filled only while it is on, it is
/// ended when the whole frame is delivered, and no access to the capture
/// controller's registers is asked for while it is on.
pub proof fn burst_spans_one_frame(machine: Machine, event: Event)
    requires
        machine.wf(),
    ensures
        machine.action_on(event) == Action::StartBurst ==> machine.triggered && !machine.streaming
            && machine.delivered == 0,
        machine.action_on(event) == Action::FillWindow ==> machine.after_event(event).streaming,
        machine.action_on(event) == Action::EndBurst ==> machine.streaming && machine.delivered
            == GRAY_FRAME_BYTES,
        machine.action_on(event) == Action::TriggerCapture ==> !machine.streaming,
        (machine.action_on(event) matches Action::PollStatus { delay_ms }) ==> !machine.streaming,
        (machine.action_on(event) matches Action::ReadLength { settle_ms }) ==> !machine.streaming,
        machine.action_on(event) == Action::SendHead ==> !machine.streaming,
{
}

/// Every move keeps the state well-formed.
pub proof fn move_keeps_wf(machine: Machine, step: Move)
    requires
        machine.wf(),
    ensures
        after_move(machine, step).wf(),
{
}

/// Every run keeps the state well-formed.
pub proof fn run_keeps_wf(machine: Machine, moves: Seq<Move>)
    requires
        machine.wf(),
    ensures
        run(machine, moves).wf(),
    decreases moves.len(),
{
    if moves.len() > 0 {
        run_keeps_wf(machine, moves.drop_last());
        move_keeps_wf(run(machine, moves.drop_last()), moves.last());
    }
}

/// The state after `k + 1` moves is the state after `k` moves and move `k`.
pub proof fn run_unfolds(machine: Machine, moves: Seq<Move>, k: int)
    requires
        0 <= k < moves.len(),
    ensures
        run(machine, moves.take(k + 1)) == after_move(run(machine, moves.take(k)), moves[k]),
{
    assert(moves.take(k + 1).drop_last() =~= moves.take(k));
}

/// Where a run is within a session after `from` moves and outside one after
/// `to` moves, some move between the two ended the session with its whole
/// frame delivered.
pub proof fn session_ends_by_delivery(machine: Machine, moves: Seq<Move>, from: int, to: int)
    requires
        machine.wf(),
        0 <= from <= to <= moves.len(),
        run(machine, moves.take(from)).triggered,
        !run(machine, moves.take(to)).triggered,
    ensures
        exists|k: int| from <= k < to && completes_at(machine, moves, k),
    decreases to - from,
{
    assert(from < to);
    let last = to - 1;
    let before = run(machine, moves.take(last));
    run_unfolds(machine, moves, last);
    run_keeps_wf(machine, moves.take(last));
    if before.triggered {
        match moves[last] {
            Move::Observe(event) => {
                no_trigger_within_session(before, event);
            },
            Move::Fill(window) => {
                fill_keeps_session(before, window);
            },
        }
        assert(completes_at(machine, moves, last));
    } else {
        session_ends_by_delivery(machine, moves, from, last);
        let k = choose|k: int| from <= k < last && completes_at(machine, moves, k);
        assert(from <= k < to && completes_at(machine, moves, k));
    }
}

/// Between two triggers of a run lies the end of a session: once a capture
/// is triggered, no other trigger occurs before the whole frame is delivered,
/// whatever events arrive meanwhile.
pub proof fn one_trigger_per_session(machine: Machine, moves: Seq<Move>, first: int, second: int)
    requires
        machine.wf(),
        0 <= first < second < moves.len(),
        triggers_at(machine, moves, first),
        triggers_at(machine, moves, second),
    ensures
        exists|k: int| first < k < second && completes_at(machine, moves, k),
{
    run_keeps_wf(machine, moves.take(first));
    run_keeps_wf(machine, moves.take(second));
    run_unfolds(machine, moves, first);
    match moves[first] {
        Move::Observe(event) => {
            trigger_begins_session(run(machine, moves.take(first)), event);
        },
        Move::Fill(window) => {},
    }
    match moves[second] {
        Move::Observe(event) => {
            trigger_begins_session(run(machine, moves.take(second)), event);
        },
        Move::Fill(window) => {},
    }
    session_ends_by_delivery(machine, moves, first + 1, second);
    let k = choose|k: int| first + 1 <= k < second && completes_at(machine, moves, k);
    assert(first < k < second && completes_at(machine, moves, k));
}

} // verus!
