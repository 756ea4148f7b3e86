//! The event handler that native callbacks are forwarded to.
//!
//! A handler is a set of four optional callbacks. The native engine invokes
//! them from threads it owns, so each callback must be `Send`; the owner of
//! the handler serialises the invocations (the agent keeps it under a lock).

use vstd::prelude::*;

use crate::state::State;

verus! {

/// Receives the agent's state changes.
pub trait StateCallback: Send {
    fn state_changed(&mut self, state: State);
}

/// Receives the local candidates the agent gathers, in SDP form.
pub trait CandidateCallback: Send {
    fn candidate(&mut self, sdp: String);
}

/// Learns that candidate gathering has finished.
pub trait GatheringDoneCallback: Send {
    fn gathering_done(&mut self);
}

/// Receives the datagrams that arrive from the remote peer.
pub trait RecvCallback: Send {
    fn received(&mut self, packet: &[u8]);
}

/// Relies on `FnMut::call_mut`: runs the application's closure on `state`.
#[verifier::external_body]
fn call_with_state<F: FnMut(State)>(f: &mut F, state: State) {
    f(state)
}

/// Relies on `FnMut::call_mut`: runs the application's closure on `sdp`.
#[verifier::external_body]
fn call_with_candidate<F: FnMut(String)>(f: &mut F, sdp: String) {
    f(sdp)
}

/// Relies on `FnMut::call_mut`: runs the application's closure.
#[verifier::external_body]
fn call_without_argument<F: FnMut()>(f: &mut F) {
    f()
}

/// Relies on `FnMut::call_mut`: runs the application's closure on `packet`.
#[verifier::external_body]
fn call_with_packet<F: FnMut(&[u8])>(f: &mut F, packet: &[u8]) {
    f(packet)
}

impl<F: FnMut(State) + Send> StateCallback for F {
    fn state_changed(&mut self, state: State) {
        call_with_state(self, state)
    }
}

impl<F: FnMut(String) + Send> CandidateCallback for F {
    fn candidate(&mut self, sdp: String) {
        call_with_candidate(self, sdp)
    }
}

impl<F: FnMut() + Send> GatheringDoneCallback for F {
    fn gathering_done(&mut self) {
        call_without_argument(self)
    }
}

impl<F: FnMut(&[u8]) + Send> RecvCallback for F {
    fn received(&mut self, packet: &[u8]) {
        call_with_packet(self, packet)
    }
}

/// Which of a handler's four callbacks are installed.
pub struct HandlerSlots {
    pub state: bool,
    pub candidate: bool,
    pub gathering_done: bool,
    pub recv: bool,
}

/// Closure-based event handler of an agent.
///
/// Any of its closures may be invoked on any thread, usually on one that the
/// native engine owns. An event whose callback is not installed is dropped.
pub struct Handler {
    on_state_change: Option<Box<dyn StateCallback>>,
    on_candidate: Option<Box<dyn CandidateCallback>>,
    on_gathering_done: Option<Box<dyn GatheringDoneCallback>>,
    on_recv: Option<Box<dyn RecvCallback>>,
}

impl View for Handler {
    type V = HandlerSlots;

    closed spec fn view(&self) -> HandlerSlots {
        HandlerSlots {
            state: self.on_state_change is Some,
            candidate: self.on_candidate is Some,
            gathering_done: self.on_gathering_done is Some,
            recv: self.on_recv is Some,
        }
    }
}

impl Default for Handler {
    /// A handler with no callback installed.
    fn default() -> (r: Self)
        ensures
            r@ == (HandlerSlots { state: false, candidate: false, gathering_done: false, recv: false }),
    {
        Handler { on_state_change: None, on_candidate: None, on_gathering_done: None, on_recv: None }
    }
}

impl Handler {
    /// Installs the state change callback, replacing any earlier one.
    pub fn state_handler<F>(self, f: F) -> (r: Self) where F: FnMut(State) + Send + 'static
        ensures
            r@ == (HandlerSlots { state: true, ..self@ }),
    {
        let b: Box<dyn StateCallback> = Box::new(f);
        Handler { on_state_change: Some(b), ..self }
    }

    /// Installs the local candidate callback, replacing any earlier one.
    pub fn candidate_handler<F>(self, f: F) -> (r: Self) where F: FnMut(String) + Send + 'static
        ensures
            r@ == (HandlerSlots { candidate: true, ..self@ }),
    {
        let b: Box<dyn CandidateCallback> = Box::new(f);
        Handler { on_candidate: Some(b), ..self }
    }

    /// Installs the gathering finished callback, replacing any earlier one.
    pub fn gathering_finished_handler<F>(self, f: F) -> (r: Self) where F: FnMut() + Send + 'static
        ensures
            r@ == (HandlerSlots { gathering_done: true, ..self@ }),
    {
        let b: Box<dyn GatheringDoneCallback> = Box::new(f);
        Handler { on_gathering_done: Some(b), ..self }
    }

    /// Installs the incoming packet callback, replacing any earlier one.
    pub fn recv_handler<F>(self, f: F) -> (r: Self) where F: FnMut(&[u8]) + Send + 'static
        ensures
            r@ == (HandlerSlots { recv: true, ..self@ }),
    {
        let b: Box<dyn RecvCallback> = Box::new(f);
        Handler { on_recv: Some(b), ..self }
    }

    /// Moves the handler to the heap.
    pub fn to_box(self) -> (r: Box<Self>)
        ensures
            *r == self,
    {
        Box::new(self)
    }

    /// Delivers a state change; returns whether a callback received it.
    pub fn on_state_changed(&mut self, state: State) -> (delivered: bool)
        ensures
            delivered == old(self)@.state,
            final(self)@ == old(self)@,
    {
        match &mut self.on_state_change {
            Some(f) => {
                f.state_changed(state);
                true
            },
            None => false,
        }
    }

    /// Delivers a native state code. A code that names no state is dropped
    /// and gives `None`; otherwise the result tells whether a callback
    /// received the decoded state.
    pub fn on_state_code(&mut self, code: u32) -> (r: Option<bool>)
        ensures
            r is None <==> State::spec_from_code(code) is None,
            r matches Some(delivered) ==> delivered == old(self)@.state,
            final(self)@ == old(self)@,
    {
        match State::from_code(code) {
            Some(state) => Some(self.on_state_changed(state)),
            None => None,
        }
    }

    /// Delivers a local candidate; returns whether a callback received it.
    pub fn on_candidate(&mut self, sdp: String) -> (delivered: bool)
        ensures
            delivered == old(self)@.candidate,
            final(self)@ == old(self)@,
    {
        match &mut self.on_candidate {
            Some(f) => {
                f.candidate(sdp);
                true
            },
            None => false,
        }
    }

    /// Signals the end of gathering; returns whether a callback received it.
    pub fn on_gathering_done(&mut self) -> (delivered: bool)
        ensures
            delivered == old(self)@.gathering_done,
            final(self)@ == old(self)@,
    {
        match &mut self.on_gathering_done {
            Some(f) => {
                f.gathering_done();
                true
            },
            None => false,
        }
    }

    /// Delivers an incoming packet; returns whether a callback received it.
    pub fn on_recv(&mut self, packet: &[u8]) -> (delivered: bool)
        ensures
            delivered == old(self)@.recv,
            final(self)@ == old(self)@,
    {
        match &mut self.on_recv {
            Some(f) => {
                f.received(packet);
                true
            },
            None => false,
        }
    }
}

} // verus!
