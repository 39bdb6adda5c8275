use vstd::prelude::*;

verus! {

/// Cooking time that `start` gives an idle oven with no time set, and that it
/// adds to a running one.
pub const COOK_INCREMENT: usize = 30;

/// The configurations of a microwave oven: the door, the magnetron and the
/// time remaining, folded into one tag with a payload only where time is set.
///
/// A well-formed configuration (see [`MicrowaveState::wf`]) carries a positive
/// time in each variant that has one.
#[derive(Clone, Copy, Debug, PartialEq, Eq, Structural)]
pub enum MicrowaveState {
    /// Door open, magnetron off, no time.
    OpenNoTime,
    /// Door open, magnetron off, time set.
    OpenTime(usize),
    /// Door closed, magnetron off, no time.
    ClosedNoTimeNoMtron,
    /// Door closed, magnetron off, time set.
    ClosedTimeNoMtron(usize),
    /// Door closed, magnetron on, counting down.
    ClosedTimeMtron(usize),
}

/// One operation of the oven, as a value, to speak of sequences of them.
#[derive(Clone, Copy, Debug, PartialEq, Eq, Structural)]
pub enum Operation {
    Reset,
    Tick,
    OpenDoor,
    CloseDoor,
    SetTime(usize),
    Start,
    Stop,
}

/// The time after a press of start on a running oven: thirty more, held at
/// `usize::MAX` where that would not fit.
pub open spec fn extended(t: usize) -> usize {
    if t <= usize::MAX - COOK_INCREMENT {
        (t + COOK_INCREMENT) as usize
    } else {
        usize::MAX
    }
}

impl MicrowaveState {
    /// Every variant with a time holds a positive one.
    pub open spec fn wf(self) -> bool {
        match self {
            MicrowaveState::OpenTime(t) => t > 0,
            MicrowaveState::ClosedTimeNoMtron(t) => t > 0,
            MicrowaveState::ClosedTimeMtron(t) => t > 0,
            _ => true,
        }
    }

    pub open spec fn door_is_open(self) -> bool {
        self is OpenNoTime || self is OpenTime
    }

    pub open spec fn magnetron_on(self) -> bool {
        self is ClosedTimeMtron
    }

    pub open spec fn time_left(self) -> usize {
        match self {
            MicrowaveState::OpenTime(t) => t,
            MicrowaveState::ClosedTimeNoMtron(t) => t,
            MicrowaveState::ClosedTimeMtron(t) => t,
            _ => 0,
        }
    }

    /// The safety conditions: a running magnetron has the door closed and
    /// time left.
    pub open spec fn safe(self) -> bool {
        &&& self.magnetron_on() ==> !self.door_is_open()
        &&& self.magnetron_on() ==> self.time_left() > 0
    }

    /// One tick counts a running oven down and switches it off at zero.
    pub open spec fn after_tick(self) -> MicrowaveState {
        match self {
            MicrowaveState::ClosedTimeMtron(t) => if t <= 1 {
                MicrowaveState::ClosedNoTimeNoMtron
            } else {
                MicrowaveState::ClosedTimeMtron((t - 1) as usize)
            },
            _ => self,
        }
    }

    /// Opening the door keeps the time and switches the magnetron off.
    pub open spec fn after_open_door(self) -> MicrowaveState {
        match self {
            MicrowaveState::ClosedNoTimeNoMtron => MicrowaveState::OpenNoTime,
            MicrowaveState::ClosedTimeNoMtron(t) => MicrowaveState::OpenTime(t),
            MicrowaveState::ClosedTimeMtron(t) => MicrowaveState::OpenTime(t),
            _ => self,
        }
    }

    /// Closing the door keeps the time and never starts the magnetron.
    pub open spec fn after_close_door(self) -> MicrowaveState {
        match self {
            MicrowaveState::OpenNoTime => MicrowaveState::ClosedNoTimeNoMtron,
            MicrowaveState::OpenTime(t) => MicrowaveState::ClosedTimeNoMtron(t),
            _ => self,
        }
    }

    /// Setting the time replaces it unless the magnetron runs; a time of zero
    /// leaves the oven with no time set.
    pub open spec fn after_set_time(self, t: usize) -> MicrowaveState {
        match self {
            MicrowaveState::OpenNoTime => if t == 0 {
                MicrowaveState::OpenNoTime
            } else {
                MicrowaveState::OpenTime(t)
            },
            MicrowaveState::OpenTime(_) => if t == 0 {
                MicrowaveState::OpenNoTime
            } else {
                MicrowaveState::OpenTime(t)
            },
            MicrowaveState::ClosedNoTimeNoMtron => if t == 0 {
                MicrowaveState::ClosedNoTimeNoMtron
            } else {
                MicrowaveState::ClosedTimeNoMtron(t)
            },
            MicrowaveState::ClosedTimeNoMtron(_) => if t == 0 {
                MicrowaveState::ClosedNoTimeNoMtron
            } else {
                MicrowaveState::ClosedTimeNoMtron(t)
            },
            MicrowaveState::ClosedTimeMtron(_) => self,
        }
    }

    /// Start runs a closed oven: with the default time when none is set, with
    /// the time set, or with thirty more when it already runs. Nothing happens
    /// with the door open.
    pub open spec fn after_start(self) -> MicrowaveState {
        match self {
            MicrowaveState::ClosedNoTimeNoMtron => MicrowaveState::ClosedTimeMtron(COOK_INCREMENT),
            MicrowaveState::ClosedTimeNoMtron(t) => MicrowaveState::ClosedTimeMtron(t),
            MicrowaveState::ClosedTimeMtron(t) => MicrowaveState::ClosedTimeMtron(extended(t)),
            _ => self,
        }
    }

    /// Stop halts a running oven and keeps its time; on a halted oven it
    /// clears the time, with the door closed or open.
    pub open spec fn after_stop(self) -> MicrowaveState {
        match self {
            MicrowaveState::ClosedTimeMtron(t) => MicrowaveState::ClosedTimeNoMtron(t),
            MicrowaveState::ClosedTimeNoMtron(_) => MicrowaveState::ClosedNoTimeNoMtron,
            MicrowaveState::OpenTime(_) => MicrowaveState::OpenNoTime,
            _ => self,
        }
    }

    pub open spec fn after(self, op: Operation) -> MicrowaveState {
        match op {
            Operation::Reset => MicrowaveState::ClosedNoTimeNoMtron,
            Operation::Tick => self.after_tick(),
            Operation::OpenDoor => self.after_open_door(),
            Operation::CloseDoor => self.after_close_door(),
            Operation::SetTime(t) => self.after_set_time(t),
            Operation::Start => self.after_start(),
            Operation::Stop => self.after_stop(),
        }
    }

    /// The configuration after the operations of `ops`, in order.
    pub open spec fn after_all(self, ops: Seq<Operation>) -> MicrowaveState
        decreases ops.len(),
    {
        if ops.len() == 0 {
            self
        } else {
            self.after(ops[0]).after_all(ops.drop_first())
        }
    }
}

/// Every operation takes a well-formed configuration to a well-formed one,
/// and every well-formed configuration is safe.
pub proof fn lemma_operation_preserves_wf(s: MicrowaveState, op: Operation)
    requires
        s.wf(),
    ensures
        s.safe(),
        s.after(op).wf(),
{
}

/// Whatever operations are applied to a new oven, the magnetron never runs
/// with the door open, nor with no time left.
pub proof fn lemma_reachable_states_are_safe(ops: Seq<Operation>)
    ensures
        MicrowaveState::ClosedNoTimeNoMtron.after_all(ops).safe(),
        MicrowaveState::ClosedNoTimeNoMtron.after_all(ops).wf(),
{
    lemma_after_all_preserves_wf(MicrowaveState::ClosedNoTimeNoMtron, ops);
}

proof fn lemma_after_all_preserves_wf(s: MicrowaveState, ops: Seq<Operation>)
    requires
        s.wf(),
    ensures
        s.after_all(ops).wf(),
        s.after_all(ops).safe(),
    decreases ops.len(),
{
    if ops.len() > 0 {
        lemma_operation_preserves_wf(s, ops[0]);
        lemma_after_all_preserves_wf(s.after(ops[0]), ops.drop_first());
    }
}

/// Closing a closed door and opening an open one change nothing.
pub proof fn lemma_door_actions_idempotent(s: MicrowaveState)
    ensures
        !s.door_is_open() ==> s.after_close_door() == s,
        s.door_is_open() ==> s.after_open_door() == s,
        s.after_close_door().after_close_door() == s.after_close_door(),
        s.after_open_door().after_open_door() == s.after_open_door(),
{
}

} // verus!
