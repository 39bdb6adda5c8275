//! An oven whose configuration is its type: each configuration offers only
//! the operations that change it, and each of those returns the oven in the
//! configuration it leads to. Every oven value views as a [`MicrowaveState`],
//! and each transition follows the same rules as [`crate::MicrowaveOps`].
use vstd::prelude::*;
use crate::state::{MicrowaveState, COOK_INCREMENT};

verus! {

/// Door open, magnetron off, no time.
#[derive(Debug)]
pub struct OpenNoTime;

/// Door open, magnetron off, a positive time set.
#[derive(Debug)]
pub struct OpenTime {
    t: usize,
}

/// Door closed, magnetron off, no time.
#[derive(Debug)]
pub struct ClosedNoTimeNoMtron;

/// Door closed, magnetron off, a positive time set.
#[derive(Debug)]
pub struct ClosedTimeNoMtron {
    t: usize,
}

/// Door closed, magnetron on, a positive time left.
#[derive(Debug)]
pub struct ClosedTimeMtron {
    t: usize,
}

impl OpenTime {
    #[verifier::type_invariant]
    spec fn inv(self) -> bool {
        self.t > 0
    }
}

impl ClosedTimeNoMtron {
    #[verifier::type_invariant]
    spec fn inv(self) -> bool {
        self.t > 0
    }
}

impl ClosedTimeMtron {
    #[verifier::type_invariant]
    spec fn inv(self) -> bool {
        self.t > 0
    }
}

#[derive(Debug)]
pub struct Microwave<STATE> {
    state: STATE,
}

impl View for Microwave<OpenNoTime> {
    type V = MicrowaveState;

    closed spec fn view(&self) -> MicrowaveState {
        MicrowaveState::OpenNoTime
    }
}

impl View for Microwave<OpenTime> {
    type V = MicrowaveState;

    closed spec fn view(&self) -> MicrowaveState {
        MicrowaveState::OpenTime(self.state.t)
    }
}

impl View for Microwave<ClosedNoTimeNoMtron> {
    type V = MicrowaveState;

    closed spec fn view(&self) -> MicrowaveState {
        MicrowaveState::ClosedNoTimeNoMtron
    }
}

impl View for Microwave<ClosedTimeNoMtron> {
    type V = MicrowaveState;

    closed spec fn view(&self) -> MicrowaveState {
        MicrowaveState::ClosedTimeNoMtron(self.state.t)
    }
}

impl View for Microwave<ClosedTimeMtron> {
    type V = MicrowaveState;

    closed spec fn view(&self) -> MicrowaveState {
        MicrowaveState::ClosedTimeMtron(self.state.t)
    }
}

impl Microwave<OpenNoTime> {
    pub fn magnetron_enabled(&self) -> (r: bool)
        ensures
            r == self@.magnetron_on(),
    {
        false
    }

    pub fn door_open(&self) -> (r: bool)
        ensures
            r == self@.door_is_open(),
    {
        true
    }

    pub fn time_remain(&self) -> (r: usize)
        ensures
            r == self@.time_left(),
    {
        0
    }

    pub fn action_close_door(self) -> (r: Microwave<ClosedNoTimeNoMtron>)
        ensures
            r@ == self@.after_close_door(),
    {
        Microwave { state: ClosedNoTimeNoMtron }
    }

    /// A time of zero has no configuration of this type to lead to.
    pub fn action_set_time(&mut self, t: usize) -> (r: Microwave<OpenTime>)
        requires
            t > 0,
        ensures
            r@ == old(self)@.after_set_time(t),
            final(self)@ == old(self)@,
    {
        Microwave { state: OpenTime { t: t } }
    }
}

impl Microwave<OpenTime> {
    pub fn magnetron_enabled(&self) -> (r: bool)
        ensures
            r == self@.magnetron_on(),
    {
        false
    }

    pub fn door_open(&self) -> (r: bool)
        ensures
            r == self@.door_is_open(),
    {
        true
    }

    pub fn time_remain(&self) -> (r: usize)
        ensures
            r == self@.time_left(),
    {
        self.state.t
    }

    pub fn action_close_door(self) -> (r: Microwave<ClosedTimeNoMtron>)
        ensures
            r@ == self@.after_close_door(),
    {
        proof {
            use_type_invariant(&self.state);
        }
        Microwave { state: ClosedTimeNoMtron { t: self.state.t } }
    }

    /// A time of zero has no configuration of this type to lead to.
    pub fn action_set_time(self, t: usize) -> (r: Self)
        requires
            t > 0,
        ensures
            r@ == self@.after_set_time(t),
    {
        Microwave { state: OpenTime { t: t } }
    }

    pub fn action_stop(self) -> (r: Microwave<OpenNoTime>)
        ensures
            r@ == self@.after_stop(),
    {
        Microwave { state: OpenNoTime }
    }
}

impl Microwave<ClosedNoTimeNoMtron> {
    pub fn new() -> (r: Self)
        ensures
            r@ == MicrowaveState::ClosedNoTimeNoMtron,
    {
        Microwave { state: ClosedNoTimeNoMtron }
    }

    pub fn magnetron_enabled(&self) -> (r: bool)
        ensures
            r == self@.magnetron_on(),
    {
        false
    }

    pub fn door_open(&self) -> (r: bool)
        ensures
            r == self@.door_is_open(),
    {
        false
    }

    pub fn time_remain(&self) -> (r: usize)
        ensures
            r == self@.time_left(),
    {
        0
    }

    pub fn action_open_door(self) -> (r: Microwave<OpenNoTime>)
        ensures
            r@ == self@.after_open_door(),
    {
        Microwave { state: OpenNoTime }
    }

    /// A time of zero has no configuration of this type to lead to.
    pub fn action_set_time(self, t: usize) -> (r: Microwave<ClosedTimeNoMtron>)
        requires
            t > 0,
        ensures
            r@ == self@.after_set_time(t),
    {
        Microwave { state: ClosedTimeNoMtron { t: t } }
    }

    pub fn action_start(self) -> (r: Microwave<ClosedTimeMtron>)
        ensures
            r@ == self@.after_start(),
    {
        Microwave { state: ClosedTimeMtron { t: COOK_INCREMENT } }
    }
}

impl Microwave<ClosedTimeNoMtron> {
    pub fn magnetron_enabled(&self) -> (r: bool)
        ensures
            r == self@.magnetron_on(),
    {
        false
    }

    pub fn door_open(&self) -> (r: bool)
        ensures
            r == self@.door_is_open(),
    {
        false
    }

    pub fn time_remain(&self) -> (r: usize)
        ensures
            r == self@.time_left(),
    {
        self.state.t
    }

    pub fn action_open_door(self) -> (r: Microwave<OpenTime>)
        ensures
            r@ == self@.after_open_door(),
    {
        proof {
            use_type_invariant(&self.state);
        }
        Microwave { state: OpenTime { t: self.state.t } }
    }

    /// A time of zero has no configuration of this type to lead to.
    pub fn action_set_time(self, t: usize) -> (r: Microwave<ClosedTimeNoMtron>)
        requires
            t > 0,
        ensures
            r@ == self@.after_set_time(t),
    {
        Microwave { state: ClosedTimeNoMtron { t: t } }
    }

    pub fn action_start(self) -> (r: Microwave<ClosedTimeMtron>)
        ensures
            r@ == self@.after_start(),
    {
        proof {
            use_type_invariant(&self.state);
        }
        Microwave { state: ClosedTimeMtron { t: self.state.t } }
    }

    pub fn action_stop(self) -> (r: Microwave<ClosedNoTimeNoMtron>)
        ensures
            r@ == self@.after_stop(),
    {
        Microwave { state: ClosedNoTimeNoMtron }
    }
}

impl Microwave<ClosedTimeMtron> {
    pub fn magnetron_enabled(&self) -> (r: bool)
        ensures
            r == self@.magnetron_on(),
    {
        true
    }

    pub fn door_open(&self) -> (r: bool)
        ensures
            r == self@.door_is_open(),
    {
        false
    }

    pub fn time_remain(&self) -> (r: usize)
        ensures
            r == self@.time_left(),
    {
        self.state.t
    }

    /// Counts down; the oven comes back as `Err` when the time runs out.
    pub fn tick(self) -> (r: Result<Microwave<ClosedTimeMtron>, Microwave<ClosedNoTimeNoMtron>>)
        ensures
            r is Err <==> self@.time_left() == 1,
            match r {
                Ok(m) => m@ == self@.after_tick(),
                Err(m) => m@ == self@.after_tick(),
            },
    {
        proof {
            use_type_invariant(&self.state);
        }
        if self.state.t == 1 {
            Err(Microwave { state: ClosedNoTimeNoMtron })
        } else {
            Ok(Microwave { state: ClosedTimeMtron { t: self.state.t - 1 } })
        }
    }

    pub fn action_open_door(self) -> (r: Microwave<OpenTime>)
        ensures
            r@ == self@.after_open_door(),
    {
        proof {
            use_type_invariant(&self.state);
        }
        Microwave { state: OpenTime { t: self.state.t } }
    }

    pub fn action_start(self) -> (r: Microwave<ClosedTimeMtron>)
        ensures
            r@ == self@.after_start(),
    {
        proof {
            use_type_invariant(&self.state);
        }
        Microwave { state: ClosedTimeMtron { t: self.state.t.saturating_add(COOK_INCREMENT) } }
    }

    pub fn action_stop(self) -> (r: Microwave<ClosedTimeNoMtron>)
        ensures
            r@ == self@.after_stop(),
    {
        proof {
            use_type_invariant(&self.state);
        }
        Microwave { state: ClosedTimeNoMtron { t: self.state.t } }
    }
}

} // verus!
