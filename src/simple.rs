//! An oven that holds its configuration as one tagged value.
use vstd::prelude::*;
use crate::ops::MicrowaveOps;
use crate::state::{MicrowaveState, COOK_INCREMENT};

verus! {

pub struct Microwave {
    state: MicrowaveState,
}

impl MicrowaveOps for Microwave {
    closed spec fn state(&self) -> MicrowaveState {
        self.state
    }

    fn new() -> (r: Self) {
        Microwave { state: MicrowaveState::ClosedNoTimeNoMtron }
    }

    fn reset(&mut self) {
        self.state = MicrowaveState::ClosedNoTimeNoMtron;
    }

    fn tick(&mut self) {
        self.state = match self.state {
            MicrowaveState::ClosedTimeMtron(time) => {
                // a zero time is counted as finished, never below zero
                if time <= 1 {
                    MicrowaveState::ClosedNoTimeNoMtron
                } else {
                    MicrowaveState::ClosedTimeMtron(time - 1)
                }
            },
            s => s,
        };
    }

    fn magnetron_enabled(&self) -> (r: bool) {
        match self.state {
            MicrowaveState::ClosedTimeMtron(_) => true,
            _ => false,
        }
    }

    fn door_open(&self) -> (r: bool) {
        match self.state {
            MicrowaveState::OpenNoTime => true,
            MicrowaveState::OpenTime(_) => true,
            _ => false,
        }
    }

    fn time_remain(&self) -> (r: usize) {
        match self.state {
            MicrowaveState::OpenTime(t) => t,
            MicrowaveState::ClosedTimeNoMtron(t) => t,
            MicrowaveState::ClosedTimeMtron(t) => t,
            _ => 0,
        }
    }

    fn action_open_door(&mut self) {
        self.state = match self.state {
            MicrowaveState::ClosedTimeNoMtron(t) => MicrowaveState::OpenTime(t),
            MicrowaveState::ClosedTimeMtron(t) => MicrowaveState::OpenTime(t),
            MicrowaveState::ClosedNoTimeNoMtron => MicrowaveState::OpenNoTime,
            s => s,
        };
    }

    fn action_close_door(&mut self) {
        self.state = match self.state {
            MicrowaveState::OpenTime(t) => MicrowaveState::ClosedTimeNoMtron(t),
            MicrowaveState::OpenNoTime => MicrowaveState::ClosedNoTimeNoMtron,
            s => s,
        };
    }

    fn action_set_time(&mut self, t: usize) {
        self.state = match self.state {
            MicrowaveState::ClosedTimeNoMtron(_) | MicrowaveState::ClosedNoTimeNoMtron => {
                if t == 0 {
                    MicrowaveState::ClosedNoTimeNoMtron
                } else {
                    MicrowaveState::ClosedTimeNoMtron(t)
                }
            },
            MicrowaveState::OpenNoTime | MicrowaveState::OpenTime(_) => {
                if t == 0 {
                    MicrowaveState::OpenNoTime
                } else {
                    MicrowaveState::OpenTime(t)
                }
            },
            s => s,
        };
    }

    fn action_start(&mut self) {
        self.state = match self.state {
            MicrowaveState::ClosedNoTimeNoMtron => MicrowaveState::ClosedTimeMtron(COOK_INCREMENT),
            MicrowaveState::ClosedTimeNoMtron(t) => MicrowaveState::ClosedTimeMtron(t),
            MicrowaveState::ClosedTimeMtron(t) => MicrowaveState::ClosedTimeMtron(
                t.saturating_add(COOK_INCREMENT),
            ),
            s => s,
        };
    }

    fn action_stop(&mut self) {
        self.state = match self.state {
            MicrowaveState::ClosedTimeMtron(t) => MicrowaveState::ClosedTimeNoMtron(t),
            MicrowaveState::ClosedTimeNoMtron(_) => MicrowaveState::ClosedNoTimeNoMtron,
            MicrowaveState::OpenTime(_) => MicrowaveState::OpenNoTime,
            s => s,
        };
    }
}

} // verus!
