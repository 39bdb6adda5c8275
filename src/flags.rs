//! An oven that holds its configuration as separate flags and a counter.
use vstd::prelude::*;
use crate::ops::MicrowaveOps;
use crate::state::{MicrowaveState, COOK_INCREMENT};

verus! {

pub struct Microwave {
    door_open: bool,
    magnetron_disabled: bool,
    time_remain: usize,
}

impl Microwave {
    /// A running magnetron has the door closed and time left.
    #[verifier::type_invariant]
    spec fn inv(self) -> bool {
        !self.magnetron_disabled ==> !self.door_open && self.time_remain > 0
    }
}

impl MicrowaveOps for Microwave {
    closed spec fn state(&self) -> MicrowaveState {
        if self.door_open {
            if self.time_remain == 0 {
                MicrowaveState::OpenNoTime
            } else {
                MicrowaveState::OpenTime(self.time_remain)
            }
        } else if !self.magnetron_disabled {
            MicrowaveState::ClosedTimeMtron(self.time_remain)
        } else if self.time_remain == 0 {
            MicrowaveState::ClosedNoTimeNoMtron
        } else {
            MicrowaveState::ClosedTimeNoMtron(self.time_remain)
        }
    }

    fn new() -> (r: Self) {
        Microwave { door_open: false, magnetron_disabled: true, time_remain: 0 }
    }

    fn reset(&mut self) {
        *self = Microwave { door_open: false, magnetron_disabled: true, time_remain: 0 };
    }

    fn tick(&mut self) {
        proof {
            use_type_invariant(&*self);
        }
        if !self.magnetron_disabled {
            let time = self.time_remain - 1;
            *self = Microwave { door_open: false, magnetron_disabled: time == 0, time_remain: time };
        }
    }

    fn magnetron_enabled(&self) -> (r: bool) {
        proof {
            use_type_invariant(self);
        }
        !self.magnetron_disabled
    }

    fn door_open(&self) -> (r: bool) {
        self.door_open
    }

    fn time_remain(&self) -> (r: usize) {
        self.time_remain
    }

    fn action_open_door(&mut self) {
        proof {
            use_type_invariant(&*self);
        }
        *self = Microwave {
            door_open: true,
            magnetron_disabled: true,
            time_remain: self.time_remain,
        };
    }

    fn action_close_door(&mut self) {
        proof {
            use_type_invariant(&*self);
        }
        *self = Microwave {
            door_open: false,
            magnetron_disabled: self.magnetron_disabled,
            time_remain: self.time_remain,
        };
    }

    fn action_set_time(&mut self, t: usize) {
        proof {
            use_type_invariant(&*self);
        }
        if self.magnetron_disabled {
            *self = Microwave { door_open: self.door_open, magnetron_disabled: true, time_remain: t };
        }
    }

    fn action_start(&mut self) {
        proof {
            use_type_invariant(&*self);
        }
        if self.door_open {
            return;
        }
        if !self.magnetron_disabled {
            // already running: add more time
            *self = Microwave {
                door_open: false,
                magnetron_disabled: false,
                time_remain: self.time_remain.saturating_add(COOK_INCREMENT),
            };
        } else {
            // not running, so start, with the default time if none is set
            let time = if self.time_remain == 0 {
                COOK_INCREMENT
            } else {
                self.time_remain
            };
            *self = Microwave { door_open: false, magnetron_disabled: false, time_remain: time };
        }
    }

    fn action_stop(&mut self) {
        proof {
            use_type_invariant(&*self);
        }
        if !self.magnetron_disabled {
            // running: halt and keep the time
            *self = Microwave {
                door_open: false,
                magnetron_disabled: true,
                time_remain: self.time_remain,
            };
        } else {
            // already halted: clear the time
            *self = Microwave { door_open: self.door_open, magnetron_disabled: true, time_remain: 0 };
        }
    }
}

} // verus!
