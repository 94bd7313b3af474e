//! The window's run loop and the order in which owned handles are acquired and
//! released.
use vstd::prelude::*;

verus! {

/// Whether the run loop keeps dispatching events.
#[derive(Clone, Copy, Debug, PartialEq, Eq, Structural)]
pub enum RunState {
    Running,
    Terminating,
}

/// A platform event, as far as the run loop reads it.
#[derive(Clone, Copy, Debug, PartialEq, Eq, Structural)]
pub enum LoopEvent {
    /// The user asked to close the window with this identity.
    WindowClose { window_id: u64 },
    /// Any other event: resize, input, focus and the like.
    Other,
}

/// The state after `event`: only a close request for the owned window ends the
/// loop, and an ended loop stays ended.
pub open spec fn next_state(state: RunState, event: LoopEvent, owned_window: u64) -> RunState {
    match state {
        RunState::Terminating => RunState::Terminating,
        RunState::Running => match event {
            LoopEvent::WindowClose { window_id } => if window_id == owned_window {
                RunState::Terminating
            } else {
                RunState::Running
            },
            LoopEvent::Other => RunState::Running,
        },
    }
}

/// The state after a sequence of events.
pub open spec fn state_after(state: RunState, events: Seq<LoopEvent>, owned_window: u64) -> RunState
    decreases events.len(),
{
    if events.len() == 0 {
        state
    } else {
        state_after(next_state(state, events[0], owned_window), events.drop_first(), owned_window)
    }
}

/// The run loop of one window.
pub struct RunLoop {
    owned_window: u64,
    state: RunState,
}

impl RunLoop {
    pub closed spec fn owned_window_spec(&self) -> u64 {
        self.owned_window
    }

    pub closed spec fn state_spec(&self) -> RunState {
        self.state
    }

    /// A running loop for the window with identity `owned_window`.
    pub fn new(owned_window: u64) -> (r: RunLoop)
        ensures
            r.owned_window_spec() == owned_window,
            r.state_spec() == RunState::Running,
    {
        RunLoop { owned_window, state: RunState::Running }
    }

    pub fn owned_window(&self) -> (r: u64)
        ensures
            r == self.owned_window_spec(),
    {
        self.owned_window
    }

    pub fn state(&self) -> (r: RunState)
        ensures
            r == self.state_spec(),
    {
        self.state
    }

    /// Handles one event and returns whether the loop is to stop.
    pub fn handle_event(&mut self, event: LoopEvent) -> (exit: bool)
        ensures
            final(self).owned_window_spec() == old(self).owned_window_spec(),
            final(self).state_spec() == next_state(
                old(self).state_spec(),
                event,
                old(self).owned_window_spec(),
            ),
            exit == (final(self).state_spec() == RunState::Terminating),
    {
        if let LoopEvent::WindowClose { window_id } = event {
            if window_id == self.owned_window {
                self.state = RunState::Terminating;
            }
        }
        match self.state {
            RunState::Terminating => true,
            RunState::Running => false,
        }
    }
}

/// Once the loop has ended, no sequence of events starts it again.
pub proof fn lemma_terminating_is_absorbing(events: Seq<LoopEvent>, owned_window: u64)
    ensures
        state_after(RunState::Terminating, events, owned_window) == RunState::Terminating,
    decreases events.len(),
{
    if events.len() > 0 {
        lemma_terminating_is_absorbing(events.drop_first(), owned_window);
    }
}

/// A handle that the application owns.
#[derive(Clone, Copy, Debug, PartialEq, Eq, Structural)]
pub enum Resource {
    Library,
    Instance,
    DebugChannel,
    Window,
}

/// The order in which the handles are acquired: the debug channel needs the
/// instance, which needs the library.
pub open spec fn acquisition_order_spec(debug_attached: bool) -> Seq<Resource> {
    if debug_attached {
        seq![Resource::Library, Resource::Instance, Resource::DebugChannel, Resource::Window]
    } else {
        seq![Resource::Library, Resource::Instance, Resource::Window]
    }
}

/// The order in which the handles are acquired.
pub fn acquisition_order(debug_attached: bool) -> (r: Vec<Resource>)
    ensures
        r@ == acquisition_order_spec(debug_attached),
{
    let mut r: Vec<Resource> = Vec::new();
    r.push(Resource::Library);
    r.push(Resource::Instance);
    if debug_attached {
        r.push(Resource::DebugChannel);
    }
    r.push(Resource::Window);
    proof {
        assert(r@ =~= acquisition_order_spec(debug_attached));
    }
    r
}

/// The order in which the `acquired` handles are released: the last acquired
/// goes first.
pub fn teardown_order(acquired: &Vec<Resource>) -> (r: Vec<Resource>)
    ensures
        r@ == acquired@.reverse(),
{
    let mut r: Vec<Resource> = Vec::new();
    let mut i: usize = acquired.len();
    while i > 0
        invariant
            0 <= i <= acquired.len(),
            r@.len() == acquired.len() - i,
            forall|k: int| 0 <= k < r@.len() ==> #[trigger] r@[k] == acquired@[acquired.len() - 1 - k],
        decreases i,
    {
        i -= 1;
        r.push(acquired[i]);
    }
    proof {
        assert(r@ =~= acquired@.reverse());
    }
    r
}

/// Released in the order `teardown_order` gives, the debug channel goes before
/// the instance, and the instance before the library.
pub proof fn lemma_teardown_releases_dependents_first(debug_attached: bool)
    ensures
        forall|i: int, j: int|
            0 <= i < acquisition_order_spec(debug_attached).reverse().len() && 0 <= j
                < acquisition_order_spec(debug_attached).reverse().len()
                && acquisition_order_spec(debug_attached).reverse()[i] == Resource::DebugChannel
                && acquisition_order_spec(debug_attached).reverse()[j] == Resource::Instance ==> i < j,
        forall|i: int, j: int|
            0 <= i < acquisition_order_spec(debug_attached).reverse().len() && 0 <= j
                < acquisition_order_spec(debug_attached).reverse().len()
                && acquisition_order_spec(debug_attached).reverse()[i] == Resource::Instance
                && acquisition_order_spec(debug_attached).reverse()[j] == Resource::Library ==> i < j,
{
    let t = acquisition_order_spec(debug_attached).reverse();
    if debug_attached {
        assert(t =~= seq![Resource::Window, Resource::DebugChannel, Resource::Instance, Resource::Library]);
    } else {
        assert(t =~= seq![Resource::Window, Resource::Instance, Resource::Library]);
    }
}

} // verus!
