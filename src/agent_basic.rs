use vstd::prelude::*;

use crate::messages::Message;

verus! {

/// The stages an agent passes through. Each agent interprets a subset.
#[derive(Debug, Clone, Copy, PartialEq, Eq, Structural)]
pub enum AgentState {
    Discovery,
    Working,
    UnitTesting,
    Finished,
}

/// What every agent carries: its objective, its role label, its state and a
/// conversation memory kept for later use.
#[derive(Debug)]
pub struct BasicAgent {
    pub objective: String,
    pub position: String,
    pub state: AgentState,
    pub memory: Vec<Message>,
}

impl BasicAgent {
    /// Moves the agent to `new_state`, leaving everything else as it was.
    pub fn update_state(&mut self, new_state: AgentState)
        ensures
            final(self).state == new_state,
            final(self).objective == old(self).objective,
            final(self).position == old(self).position,
            final(self).memory == old(self).memory,
    {
        self.state = new_state;
    }
}

} // verus!

verus! {

/// The conditions that stop a run.
#[derive(Debug, Clone, Copy, PartialEq, Eq, Structural)]
pub enum AgentError {
    /// The oracle failed on a call and on its retry.
    OracleFailed,
    /// An oracle reply could not be decoded into the expected shape.
    DecodeFailed,
    /// URL probing was asked for while the fact sheet holds no URL list.
    MissingExternalUrls,
    /// The operator declined to run the generated code.
    SafetyGateDenied,
    /// The generated code still failed to build after the last allowed repair.
    TooManyBugs,
}

} // verus!
