//! A scripted run of operations on an oven, with the configuration expected
//! after each one. Each observation checks first that the magnetron does not
//! run with the door open, then the door, the magnetron and the time. The run
//! stops at the first observation that fails.
use vstd::prelude::*;
use crate::ops::MicrowaveOps;
use crate::state::MicrowaveState;

verus! {

/// Why an observation failed.
#[derive(Clone, Copy, Debug, PartialEq, Eq, Structural)]
pub enum Failure {
    /// The magnetron runs with the door open.
    UnsafeCombination,
    /// The oven is safe but not in the expected configuration.
    Mismatch,
}

/// What an observation of an oven in configuration `s` finds, where the door,
/// the magnetron and the time are expected to be `door`, `mtron` and `time`.
pub open spec fn observation(s: MicrowaveState, door: bool, mtron: bool, time: usize) -> Result<
    (),
    Failure,
> {
    if s.magnetron_on() && s.door_is_open() {
        Err(Failure::UnsafeCombination)
    } else if s.door_is_open() == door && s.magnetron_on() == mtron && s.time_left() == time {
        Ok(())
    } else {
        Err(Failure::Mismatch)
    }
}

/// Observes the oven: first the safety condition, then each expected value.
pub fn expect_oven<T: MicrowaveOps>(mw: &T, door: bool, mtron: bool, time: usize) -> (r: Result<
    (),
    Failure,
>)
    ensures
        r == observation(mw.state(), door, mtron, time),
{
    if mw.magnetron_enabled() && mw.door_open() {
        return Err(Failure::UnsafeCombination);
    }
    if mw.door_open() == door && mw.magnetron_enabled() == mtron && mw.time_remain() == time {
        Ok(())
    } else {
        Err(Failure::Mismatch)
    }
}

/// Start and tick never run the magnetron nor count down with the door
/// open; the door moves between open and closed with and without time.
fn door_open_safety<T: MicrowaveOps>(mw: &mut T) -> (r: Result<(), Failure>)
    ensures
        r is Ok,
        final(mw).state() == MicrowaveState::OpenNoTime,
{
    mw.reset();
    mw.action_open_door();
    expect_oven(mw, true, false, 0)?;
    mw.action_close_door();
    expect_oven(mw, false, false, 0)?;
    mw.action_open_door();
    expect_oven(mw, true, false, 0)?;

    mw.action_start();
    expect_oven(mw, true, false, 0)?;
    mw.action_stop();
    expect_oven(mw, true, false, 0)?;

    mw.action_set_time(20);
    expect_oven(mw, true, false, 20)?;
    mw.action_set_time(30);
    expect_oven(mw, true, false, 30)?;
    mw.action_open_door();
    expect_oven(mw, true, false, 30)?;
    mw.action_start();
    expect_oven(mw, true, false, 30)?;

    mw.action_close_door();
    expect_oven(mw, false, false, 30)?;
    mw.action_open_door();
    expect_oven(mw, true, false, 30)?;

    // stop with the door open clears the time
    mw.action_stop();
    expect_oven(mw, true, false, 0)?;
    Ok(())
}

/// Ticks change nothing while the magnetron is off.
fn idle_ticks<T: MicrowaveOps>(mw: &mut T) -> (r: Result<(), Failure>)
    ensures
        r is Ok,
        final(mw).state() == MicrowaveState::ClosedTimeNoMtron(30),
{
    mw.reset();
    mw.action_open_door();
    expect_oven(mw, true, false, 0)?;
    mw.tick();
    expect_oven(mw, true, false, 0)?;

    mw.reset();
    mw.action_open_door();
    expect_oven(mw, true, false, 0)?;
    mw.action_set_time(30);
    expect_oven(mw, true, false, 30)?;
    mw.tick();
    expect_oven(mw, true, false, 30)?;

    mw.reset();
    mw.action_close_door();
    mw.tick();
    expect_oven(mw, false, false, 0)?;

    mw.reset();
    mw.action_close_door();
    expect_oven(mw, false, false, 0)?;
    mw.action_set_time(30);
    expect_oven(mw, false, false, 30)?;
    mw.tick();
    expect_oven(mw, false, false, 30)?;

    // the time is set before the door is closed
    mw.reset();
    mw.action_open_door();
    mw.action_set_time(30);
    expect_oven(mw, true, false, 30)?;
    mw.action_close_door();
    expect_oven(mw, false, false, 30)?;
    mw.tick();
    expect_oven(mw, false, false, 30)?;
    Ok(())
}

/// A running oven counts down and switches off exactly at zero.
fn countdown<T: MicrowaveOps>(mw: &mut T) -> (r: Result<(), Failure>)
    ensures
        r is Ok,
        final(mw).state() == MicrowaveState::ClosedNoTimeNoMtron,
{
    mw.reset();
    mw.action_close_door();
    mw.action_set_time(2);
    expect_oven(mw, false, false, 2)?;
    mw.action_start();
    expect_oven(mw, false, true, 2)?;
    mw.tick();
    expect_oven(mw, false, true, 1)?;
    mw.tick();
    expect_oven(mw, false, false, 0)?;
    Ok(())
}

/// Start with no time runs for thirty, start while running adds thirty, the
/// door pauses a run, and stop first halts and then clears.
fn start_and_stop<T: MicrowaveOps>(mw: &mut T) -> (r: Result<(), Failure>)
    ensures
        r is Ok,
        final(mw).state() == MicrowaveState::ClosedNoTimeNoMtron,
{
    mw.reset();
    mw.action_close_door();
    expect_oven(mw, false, false, 0)?;
    mw.action_start();
    expect_oven(mw, false, true, 30)?;
    mw.action_start();
    expect_oven(mw, false, true, 60)?;
    mw.tick();
    expect_oven(mw, false, true, 59)?;
    mw.action_open_door();
    expect_oven(mw, true, false, 59)?;
    mw.action_close_door();
    mw.action_start();
    expect_oven(mw, false, true, 59)?;
    mw.tick();
    expect_oven(mw, false, true, 58)?;
    mw.action_stop();
    expect_oven(mw, false, false, 58)?;
    mw.tick();
    expect_oven(mw, false, false, 58)?;
    mw.action_stop();
    expect_oven(mw, false, false, 0)?;
    Ok(())
}

/// The time cannot be set while the magnetron runs, and can be otherwise.
fn set_time_while_running<T: MicrowaveOps>(mw: &mut T) -> (r: Result<(), Failure>)
    ensures
        r is Ok,
        final(mw).state() == MicrowaveState::OpenTime(45),
{
    mw.reset();
    mw.action_close_door();
    mw.action_start();
    expect_oven(mw, false, true, 30)?;
    mw.action_set_time(25);
    expect_oven(mw, false, true, 30)?;
    mw.action_set_time(45);
    expect_oven(mw, false, true, 30)?;
    mw.action_open_door();
    expect_oven(mw, true, false, 30)?;
    mw.action_set_time(45);
    expect_oven(mw, true, false, 45)?;
    Ok(())
}

/// Repeated opens, closes and stops, and a start right after a close.
fn repeated_actions<T: MicrowaveOps>(mw: &mut T) -> (r: Result<(), Failure>)
    ensures
        r is Ok,
        final(mw).state() == MicrowaveState::ClosedTimeMtron(30),
{
    mw.reset();
    mw.action_open_door();
    expect_oven(mw, true, false, 0)?;
    mw.action_open_door();
    expect_oven(mw, true, false, 0)?;

    mw.action_set_time(24);
    expect_oven(mw, true, false, 24)?;
    mw.action_open_door();
    expect_oven(mw, true, false, 24)?;

    mw.action_close_door();
    expect_oven(mw, false, false, 24)?;
    mw.action_set_time(389);
    expect_oven(mw, false, false, 389)?;
    mw.action_close_door();
    expect_oven(mw, false, false, 389)?;
    mw.action_open_door();
    expect_oven(mw, true, false, 389)?;

    mw.reset();
    mw.action_close_door();
    expect_oven(mw, false, false, 0)?;
    mw.action_close_door();
    expect_oven(mw, false, false, 0)?;
    mw.action_stop();
    expect_oven(mw, false, false, 0)?;
    mw.action_open_door();
    expect_oven(mw, true, false, 0)?;

    mw.action_close_door();
    expect_oven(mw, false, false, 0)?;
    mw.action_start();
    expect_oven(mw, false, true, 30)?;
    mw.action_close_door();
    expect_oven(mw, false, true, 30)?;
    Ok(())
}

/// Runs the whole script on `mw` and tells whether every observation passed.
/// Every oven that meets the [`MicrowaveOps`] contract passes, and is left
/// running with thirty units of time.
pub fn test_microwave<T: MicrowaveOps>(mw: &mut T) -> (r: bool)
    ensures
        r,
        final(mw).state() == MicrowaveState::ClosedTimeMtron(30),
{
    if door_open_safety(mw).is_err() {
        return false;
    }
    if idle_ticks(mw).is_err() {
        return false;
    }
    if countdown(mw).is_err() {
        return false;
    }
    if start_and_stop(mw).is_err() {
        return false;
    }
    if set_time_while_running(mw).is_err() {
        return false;
    }
    if repeated_actions(mw).is_err() {
        return false;
    }
    true
}

} // verus!
