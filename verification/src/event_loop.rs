//! The decisions of the event loop: how long to wait for input, what an
//! input does, and when a tick is due. The caller draws, waits and reads the
//! clock; times are handed in as whole numbers of one unit (nanoseconds,
//! say), counted from the last tick.

use vstd::prelude::*;
use crate::app::{App, AppModel};
use crate::input::{apply, command_for, dispatch, flow_after, Command, Flow, Key};

verus! {

/// The tick interval, in milliseconds.
pub const TICK_RATE_MILLIS: u64 = 250;

/// What one turn of the loop came to.
#[derive(Clone, Copy, Debug, PartialEq, Eq)]
pub struct Turn {
    /// Whether the loop goes on.
    pub flow: Flow,
    /// Whether the turn ran the tick hook, so that the caller restarts the
    /// tick interval.
    pub ticked: bool,
}

/// The time left until the next tick, zero once the interval has passed.
pub open spec fn remaining(tick_rate: nat, elapsed: nat) -> nat {
    if elapsed >= tick_rate {
        0
    } else {
        (tick_rate - elapsed) as nat
    }
}

/// Whether a tick is due.
pub open spec fn tick_due(tick_rate: nat, elapsed: nat) -> bool {
    elapsed >= tick_rate
}

/// The state after the input of one turn: a key press is looked up in the
/// key table and carried out, and no input changes nothing.
pub open spec fn after_input(state: AppModel, input: Option<Key>) -> AppModel {
    match input {
        Some(key) => apply(state, command_for(key)),
        None => state,
    }
}

/// Whether the loop goes on after the input of one turn.
pub open spec fn flow_after_input(input: Option<Key>) -> Flow {
    match input {
        Some(key) => flow_after(command_for(key)),
        None => Flow::Running,
    }
}

/// The wait is never longer than the tick interval, and once it has passed
/// in full a tick is due: the loop comes back to its tick at least once per
/// interval, with or without input.
pub proof fn lemma_tick_after_wait(tick_rate: nat, elapsed: nat)
    ensures
        remaining(tick_rate, elapsed) <= tick_rate,
        tick_due(tick_rate, elapsed + remaining(tick_rate, elapsed)),
        !tick_due(tick_rate, elapsed) ==> elapsed + remaining(tick_rate, elapsed) == tick_rate,
{
}

/// Prepares the state for the first frame: the list panel opens with its
/// first entry highlighted.
pub fn start(app: &mut App)
    requires
        old(app).wf(),
    ensures
        final(app).wf(),
        final(app)@ == apply(old(app)@, Command::ItemsNext),
{
    app.items.next();
}

/// How long the loop may wait for input: what is left of the tick interval
/// `tick_rate` when `elapsed` of it has passed. The wait never exceeds
/// the interval.
pub fn poll_timeout(tick_rate: u128, elapsed: u128) -> (timeout: u128)
    ensures
        timeout == remaining(tick_rate as nat, elapsed as nat),
        timeout <= tick_rate,
        elapsed + timeout >= tick_rate,
{
    if elapsed >= tick_rate {
        0
    } else {
        tick_rate - elapsed
    }
}

/// One turn of the loop after the wait: `input` is the key press that
/// arrived, if one did, and `elapsed` the time since the last tick. The
/// key is handled first. A key that ends the loop ends the turn at once;
/// otherwise the tick hook runs if the interval `tick_rate` has passed.
pub fn turn(app: &mut App, input: Option<Key>, tick_rate: u128, elapsed: u128) -> (turn: Turn)
    requires
        old(app).wf(),
    ensures
        final(app).wf(),
        final(app)@ == after_input(old(app)@, input),
        turn.flow == flow_after_input(input),
        turn.ticked == (turn.flow == Flow::Running && tick_due(tick_rate as nat, elapsed as nat)),
        input is None ==> *final(app) == *old(app),
{
    let flow = match input {
        Some(key) => dispatch(app, key),
        None => Flow::Running,
    };
    match flow {
        Flow::Terminating => Turn { flow, ticked: false },
        Flow::Running => {
            let due = elapsed >= tick_rate;
            if due {
                app.on_tick();
            }
            Turn { flow, ticked: due }
        },
    }
}

} // verus!
