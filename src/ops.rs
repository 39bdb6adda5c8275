use vstd::prelude::*;
use crate::state::MicrowaveState;

verus! {

/// The operations and observations of a microwave oven. Every operation is
/// total: where it does not apply to the current configuration it changes
/// nothing.
pub trait MicrowaveOps: Sized {
    /// The configuration the oven is in.
    spec fn state(&self) -> MicrowaveState;

    fn new() -> (r: Self)
        ensures
            r.state() == MicrowaveState::ClosedNoTimeNoMtron,
    ;

    fn reset(&mut self)
        ensures
            final(self).state() == MicrowaveState::ClosedNoTimeNoMtron,
    ;

    fn tick(&mut self)
        ensures
            final(self).state() == old(self).state().after_tick(),
    ;

    fn magnetron_enabled(&self) -> (r: bool)
        ensures
            r == self.state().magnetron_on(),
    ;

    fn door_open(&self) -> (r: bool)
        ensures
            r == self.state().door_is_open(),
    ;

    fn time_remain(&self) -> (r: usize)
        ensures
            r == self.state().time_left(),
    ;

    fn action_open_door(&mut self)
        ensures
            final(self).state() == old(self).state().after_open_door(),
    ;

    fn action_close_door(&mut self)
        ensures
            final(self).state() == old(self).state().after_close_door(),
    ;

    fn action_set_time(&mut self, t: usize)
        ensures
            final(self).state() == old(self).state().after_set_time(t),
    ;

    fn action_start(&mut self)
        ensures
            final(self).state() == old(self).state().after_start(),
    ;

    fn action_stop(&mut self)
        ensures
            final(self).state() == old(self).state().after_stop(),
    ;
}

} // verus!
