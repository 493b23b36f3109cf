//! Start-up synchronisation. The engine rejects window metrics that reach it
//! before it runs, and the window system may configure the window before
//! that. So, until the engine runs, the latest configure event is held back;
//! when the engine starts it is handed on, once.

use vstd::prelude::*;

verus! {

/// Who draws the window's decorations.
#[derive(Clone, Copy, Debug, PartialEq, Eq, Structural)]
pub enum DecorationMode {
    Client,
    Server,
}

/// What the window system proposes for a window. A dimension of `None` in
/// `new_size` leaves that dimension to the window; `state` and
/// `capabilities` hold the window system's flag bits as they came.
#[derive(Clone, Copy, Debug, PartialEq, Eq)]
pub struct WindowConfigure {
    pub new_size: (Option<u32>, Option<u32>),
    pub suggested_bounds: Option<(u32, u32)>,
    pub decoration_mode: DecorationMode,
    pub state: u16,
    pub capabilities: u16,
}

/// A configure event with the serial number that acknowledges it.
#[derive(Clone, Copy, Debug, PartialEq, Eq)]
pub struct PendingConfigure {
    pub configure: WindowConfigure,
    pub serial: u32,
}

/// The synchroniser as a mathematical value.
pub struct Startup {
    pub engine_running: bool,
    pub pending: Option<PendingConfigure>,
}

/// What happens to the synchroniser.
pub enum StartupEvent {
    /// The window system configures the window.
    Configure(PendingConfigure),
    /// The engine has started to run.
    EngineStarted,
}

impl Startup {
    /// Before anything has happened.
    pub open spec fn initial() -> Startup {
        Startup { engine_running: false, pending: None }
    }

    /// Once the engine runs, nothing is held back.
    pub open spec fn well_formed(self) -> bool {
        self.engine_running ==> self.pending is None
    }

    /// The state after `event`.
    pub open spec fn after(self, event: StartupEvent) -> Startup {
        match event {
            StartupEvent::Configure(configure) => if self.engine_running {
                self
            } else {
                Startup { engine_running: false, pending: Some(configure) }
            },
            StartupEvent::EngineStarted => Startup { engine_running: true, pending: None },
        }
    }

    /// What `event` sends on to the window, if anything.
    pub open spec fn forwards(self, event: StartupEvent) -> Option<PendingConfigure> {
        match event {
            StartupEvent::Configure(configure) => if self.engine_running {
                Some(configure)
            } else {
                None
            },
            StartupEvent::EngineStarted => self.pending,
        }
    }

    /// The state after all of `events`, in order.
    pub open spec fn after_all(self, events: Seq<StartupEvent>) -> Startup
        decreases events.len(),
    {
        if events.len() == 0 {
            self
        } else {
            self.after_all(events.drop_last()).after(events.last())
        }
    }

    /// Everything that `events` send on to the window, in order.
    pub open spec fn forwards_all(self, events: Seq<StartupEvent>) -> Seq<PendingConfigure>
        decreases events.len(),
    {
        if events.len() == 0 {
            Seq::empty()
        } else {
            let earlier = self.forwards_all(events.drop_last());
            match self.after_all(events.drop_last()).forwards(events.last()) {
                Some(configure) => earlier.push(configure),
                None => earlier,
            }
        }
    }
}

/// Whether the engine starts somewhere in `events`.
pub open spec fn starts_engine(events: Seq<StartupEvent>) -> bool {
    exists|i: int| 0 <= i < events.len() && events[i] is EngineStarted
}

/// The last configure event in `events`, if there is one.
pub open spec fn last_configure(events: Seq<StartupEvent>) -> Option<PendingConfigure>
    decreases events.len(),
{
    if events.len() == 0 {
        None
    } else {
        match events.last() {
            StartupEvent::Configure(configure) => Some(configure),
            StartupEvent::EngineStarted => last_configure(events.drop_last()),
        }
    }
}

/// The configure events in `events`, in order.
pub open spec fn configures(events: Seq<StartupEvent>) -> Seq<PendingConfigure>
    decreases events.len(),
{
    if events.len() == 0 {
        Seq::empty()
    } else {
        match events.last() {
            StartupEvent::Configure(configure) => configures(events.drop_last()).push(configure),
            StartupEvent::EngineStarted => configures(events.drop_last()),
        }
    }
}

/// Holds back the window's configure events until the engine runs.
#[derive(Clone, Copy, Debug, PartialEq, Eq)]
pub struct ImplicitWindowStartupSynchronizer {
    pending_configure: Option<PendingConfigure>,
    is_engine_running: bool,
}

impl View for ImplicitWindowStartupSynchronizer {
    type V = Startup;

    closed spec fn view(&self) -> Startup {
        Startup { engine_running: self.is_engine_running, pending: self.pending_configure }
    }
}

impl ImplicitWindowStartupSynchronizer {
    #[verifier::type_invariant]
    spec fn consistent(self) -> bool {
        self@.well_formed()
    }

    /// The engine does not run yet and nothing is held back.
    pub fn new() -> (synchronizer: ImplicitWindowStartupSynchronizer)
        ensures
            synchronizer@ == Startup::initial(),
    {
        ImplicitWindowStartupSynchronizer { pending_configure: None, is_engine_running: false }
    }

    /// Whether the engine runs; it also tells the caller that the state is
    /// well formed.
    pub fn is_engine_running(&self) -> (running: bool)
        ensures
            running == self@.engine_running,
            self@.well_formed(),
    {
        proof {
            use_type_invariant(self);
        }
        self.is_engine_running
    }

    /// The configure event that is held back, if any.
    pub fn pending_configure(&self) -> (pending: Option<PendingConfigure>)
        ensures
            pending == self@.pending,
    {
        self.pending_configure
    }

    /// Holds `configure` back, in place of whatever was held back before.
    pub fn set_pending_configure(&mut self, configure: WindowConfigure, serial: u32)
        requires
            !old(self)@.engine_running,
        ensures
            final(self)@ == (Startup {
                engine_running: false,
                pending: Some(PendingConfigure { configure, serial }),
            }),
    {
        self.pending_configure = Some(PendingConfigure { configure, serial });
    }

    /// A configure event has arrived. Returns it if it is to be sent on to
    /// the window now, which is the case exactly when the engine runs;
    /// otherwise it is held back and replaces what was held back before.
    pub fn configure(&mut self, configure: WindowConfigure, serial: u32) -> (forward: Option<
        PendingConfigure,
    >)
        ensures
            final(self)@ == old(self)@.after(
                StartupEvent::Configure(PendingConfigure { configure, serial }),
            ),
            forward == old(self)@.forwards(
                StartupEvent::Configure(PendingConfigure { configure, serial }),
            ),
    {
        if self.is_engine_running {
            Some(PendingConfigure { configure, serial })
        } else {
            self.set_pending_configure(configure, serial);
            None
        }
    }

    /// The engine has started to run. Returns the configure event that was
    /// held back, if any; from now on none is held back.
    pub fn engine_started(&mut self) -> (forward: Option<PendingConfigure>)
        ensures
            final(self)@ == old(self)@.after(StartupEvent::EngineStarted),
            forward == old(self)@.forwards(StartupEvent::EngineStarted),
    {
        let pending = self.pending_configure;
        self.pending_configure = None;
        self.is_engine_running = true;
        pending
    }
}

/// The state and what is sent on, after `events` and one more.
pub proof fn lemma_after_push(state: Startup, events: Seq<StartupEvent>, event: StartupEvent)
    ensures
        state.after_all(events.push(event)) == state.after_all(events).after(event),
        state.forwards_all(events.push(event)) == (match state.after_all(events).forwards(event) {
            Some(configure) => state.forwards_all(events).push(configure),
            None => state.forwards_all(events),
        }),
{
    assert(events.push(event).drop_last() =~= events);
    assert(events.push(event).last() == event);
}

/// Well-formedness is kept by every event.
pub proof fn lemma_well_formed_is_kept(state: Startup, events: Seq<StartupEvent>)
    requires
        state.well_formed(),
    ensures
        state.after_all(events).well_formed(),
    decreases events.len(),
{
    if events.len() > 0 {
        lemma_well_formed_is_kept(state, events.drop_last());
    }
}

/// The engine, once running, keeps running.
pub proof fn lemma_running_is_kept(state: Startup, events: Seq<StartupEvent>)
    requires
        state.engine_running,
    ensures
        state.after_all(events).engine_running,
    decreases events.len(),
{
    if events.len() > 0 {
        lemma_running_is_kept(state, events.drop_last());
    }
}

/// As long as the engine has not started, no configure event reaches the
/// window, and what is held back is the latest configure event: earlier ones
/// are gone.
pub proof fn lemma_nothing_forwarded_before_start(events: Seq<StartupEvent>)
    requires
        !starts_engine(events),
    ensures
        Startup::initial().forwards_all(events) == Seq::<PendingConfigure>::empty(),
        !Startup::initial().after_all(events).engine_running,
        Startup::initial().after_all(events).pending == last_configure(events),
    decreases events.len(),
{
    if events.len() > 0 {
        let earlier = events.drop_last();
        assert forall|i: int| 0 <= i < earlier.len() implies !(earlier[i] is EngineStarted) by {
            assert(earlier[i] == events[i]);
        }
        lemma_nothing_forwarded_before_start(earlier);
        assert(!(events.last() is EngineStarted)) by {
            assert(events.last() == events[events.len() - 1]);
        }
    }
}

/// Once the engine runs, every configure event is sent on as it arrives and
/// none is held back.
pub proof fn lemma_everything_forwarded_after_start(state: Startup, events: Seq<StartupEvent>)
    requires
        state.engine_running,
        state.well_formed(),
    ensures
        state.forwards_all(events) == configures(events),
        state.after_all(events).pending is None,
    decreases events.len(),
{
    if events.len() > 0 {
        lemma_everything_forwarded_after_start(state, events.drop_last());
        lemma_running_is_kept(state, events.drop_last());
        lemma_well_formed_is_kept(state, events.drop_last());
    }
}

/// What is sent on by `first` followed by `second` is what `first` sends on,
/// followed by what `second` sends on from the state that `first` leaves.
pub proof fn lemma_forwards_concat(
    state: Startup,
    first: Seq<StartupEvent>,
    second: Seq<StartupEvent>,
)
    ensures
        state.after_all(first + second) == state.after_all(first).after_all(second),
        state.forwards_all(first + second) == state.forwards_all(first) + state.after_all(
            first,
        ).forwards_all(second),
    decreases second.len(),
{
    if second.len() == 0 {
        assert(first + second =~= first);
        assert(state.forwards_all(first) + Seq::<PendingConfigure>::empty() =~= state.forwards_all(
            first,
        ));
    } else {
        lemma_forwards_concat(state, first, second.drop_last());
        assert((first + second).drop_last() =~= first + second.drop_last());
        assert((first + second).last() == second.last());
        let middle = state.after_all(first);
        match middle.after_all(second.drop_last()).forwards(second.last()) {
            Some(configure) => {
                assert((state.forwards_all(first) + middle.forwards_all(second.drop_last())).push(
                    configure,
                ) =~= state.forwards_all(first) + middle.forwards_all(second.drop_last()).push(
                    configure,
                ));
            },
            None => {},
        }
    }
}

/// The whole life of the synchroniser: configure events `before` the engine
/// starts, the start, and configure events `after` it. The window receives
/// the latest event of `before`, if there was one, then every event of
/// `after`, in order; nothing else, and nothing twice.
pub proof fn lemma_startup_hands_on_latest_configure_once(
    before: Seq<StartupEvent>,
    after: Seq<StartupEvent>,
)
    requires
        !starts_engine(before),
    ensures
        Startup::initial().forwards_all(before.push(StartupEvent::EngineStarted) + after) == (
        match last_configure(before) {
            Some(latest) => seq![latest] + configures(after),
            None => configures(after),
        }),
        Startup::initial().after_all(
            before.push(StartupEvent::EngineStarted) + after,
        ).engine_running,
{
    let start = Startup::initial();
    let first = before.push(StartupEvent::EngineStarted);
    lemma_nothing_forwarded_before_start(before);
    lemma_after_push(start, before, StartupEvent::EngineStarted);
    lemma_forwards_concat(start, first, after);
    let running = start.after_all(first);
    lemma_everything_forwarded_after_start(running, after);
    lemma_running_is_kept(running, after);
    match last_configure(before) {
        Some(latest) => {
            assert(start.forwards_all(first) =~= seq![latest]);
        },
        None => {
            assert(Seq::<PendingConfigure>::empty() + configures(after) =~= configures(after));
        },
    }
}

} // verus!
