//! The agent's connectivity state and the engine's concurrency mode.

use vstd::prelude::*;

verus! {

/// ICE state of an agent, as reported by the native engine.
///
/// This library imposes no transition table: transitions are the engine's,
/// and are only observed here.
#[derive(Clone, Copy, Debug, PartialEq, Eq, Structural)]
pub enum State {
    Disconnected,
    Gathering,
    Connecting,
    Connected,
    Completed,
    Failed,
}

/// Name kept for code written against the agent-only revision of this API.
pub type AgentState = State;

impl State {
    /// The state that a native state code stands for, if any.
    pub open spec fn spec_from_code(code: u32) -> Option<State> {
        match code {
            0 => Some(State::Disconnected),
            1 => Some(State::Gathering),
            2 => Some(State::Connecting),
            3 => Some(State::Connected),
            4 => Some(State::Completed),
            5 => Some(State::Failed),
            _ => None,
        }
    }

    /// Decodes a native state code; `None` when no state has that code.
    pub fn from_code(code: u32) -> (r: Option<State>)
        ensures
            r == State::spec_from_code(code),
    {
        match code {
            0 => Some(State::Disconnected),
            1 => Some(State::Gathering),
            2 => Some(State::Connecting),
            3 => Some(State::Connected),
            4 => Some(State::Completed),
            5 => Some(State::Failed),
            _ => None,
        }
    }
}

/// Threading strategy of the native engine, forwarded to it at creation.
#[derive(Clone, Copy, Debug, PartialEq, Eq, Structural)]
pub enum ConcurrencyMode {
    /// One poll thread shared by all agents.
    Poll,
    /// Agents multiplexed over a shared socket.
    Mux,
    /// One thread for each agent.
    Thread,
}

impl Default for ConcurrencyMode {
    fn default() -> (r: Self)
        ensures
            r == ConcurrencyMode::Poll,
    {
        ConcurrencyMode::Poll
    }
}

impl ConcurrencyMode {
    /// The native code that selects this mode.
    pub open spec fn spec_code(self) -> u32 {
        match self {
            ConcurrencyMode::Poll => 0,
            ConcurrencyMode::Mux => 1,
            ConcurrencyMode::Thread => 2,
        }
    }

    /// The native code that selects this mode.
    pub fn code(self) -> (r: u32)
        ensures
            r == self.spec_code(),
    {
        match self {
            ConcurrencyMode::Poll => 0,
            ConcurrencyMode::Mux => 1,
            ConcurrencyMode::Thread => 2,
        }
    }
}

} // verus!
