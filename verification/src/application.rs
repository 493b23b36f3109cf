//! The application state: which windows and pointers exist, whether the
//! engine runs, and what each event of the window system leads to. The
//! handlers decide; they return what is to be done to windows, pointers and
//! engine, and the caller, who owns those, does it.

use vstd::prelude::*;
use std::collections::HashMap;
use crate::cursor::{SctkMouseCursorHandler, ThemedPointer};
use crate::display::{
    display_update, frame_interval_or_default, get_surface_frame_interval_in_nanos,
    interval_or_default, outputs_view, surface_frame_interval, DisplayUpdate,
    FlutterEngineDisplaysUpdateType, OutputInfo, SctkOutput,
};
use crate::startup::{
    ImplicitWindowStartupSynchronizer, PendingConfigure, Startup, StartupEvent, WindowConfigure,
};

verus! {

broadcast use vstd::std_specs::hash::group_hash_axioms;

/// What a seat can do.
#[derive(Clone, Copy, Debug, PartialEq, Eq, Structural)]
pub enum Capability {
    Keyboard,
    Pointer,
    Touch,
}

/// A window of the shell, by the protocol ids of its toplevel and its surface.
#[derive(Clone, Copy, Debug, PartialEq, Eq, Structural)]
pub struct SctkFlutterWindow {
    pub xdg_toplevel_id: u32,
    pub wl_surface_id: u32,
}

/// What a window is asked to do.
#[derive(Clone, Copy, Debug, PartialEq, Eq)]
pub enum WindowCall {
    /// Take over a configure event and acknowledge it with `serial`.
    Configure { configure: WindowConfigure, serial: u32 },
    ScaleFactorChanged { new_scale_factor: i32 },
    /// The set of outputs that show the surface has changed.
    SurfaceOutputsChanged,
    /// Handle the pointer event at position `index` of the frame at hand.
    PointerEvent { index: usize },
}

/// A call on the window whose toplevel has id `window`.
#[derive(Clone, Copy, Debug, PartialEq, Eq)]
pub struct WindowRequest {
    pub window: u32,
    pub call: WindowCall,
}

/// What became of a configure event.
#[derive(Clone, Copy, Debug, PartialEq, Eq)]
pub enum ConfigureOutcome {
    /// No window of the shell has the toplevel; the event is dropped.
    UnknownWindow,
    /// The engine does not run yet; the event is held back.
    Buffered,
    /// The engine runs; the window is to take the event now.
    Forward(WindowRequest),
}

/// What is to be done once the engine has started.
#[derive(Clone, Debug, PartialEq, Eq)]
pub struct StartupActions {
    /// The displays, to be made known to the engine first.
    pub display_update: DisplayUpdate,
    /// The configure event that was held back, for the implicit window.
    pub configure: Option<WindowRequest>,
}

/// What the engine is told at a frame callback of the window system.
#[derive(Clone, Copy, Debug, PartialEq, Eq)]
pub struct VsyncRequest {
    pub baton: isize,
    /// Nanoseconds from the start of the frame to its target time.
    pub frame_interval_nanos: u64,
}

/// The application state as a mathematical value.
pub struct Shell {
    pub windows: Seq<SctkFlutterWindow>,
    /// For each seat with a pointer, the pointer's id.
    pub pointers: Map<u32, u32>,
    pub startup: Startup,
    pub stop_requested: bool,
}

/// The first of `windows` with surface `surface_id`.
pub open spec fn window_of_surface(windows: Seq<SctkFlutterWindow>, surface_id: u32) -> Option<
    SctkFlutterWindow,
>
    decreases windows.len(),
{
    if windows.len() == 0 {
        None
    } else if windows.first().wl_surface_id == surface_id {
        Some(windows.first())
    } else {
        window_of_surface(windows.drop_first(), surface_id)
    }
}

/// The first of `windows` with toplevel `xdg_toplevel_id`.
pub open spec fn window_of_toplevel(windows: Seq<SctkFlutterWindow>, xdg_toplevel_id: u32) -> Option<
    SctkFlutterWindow,
>
    decreases windows.len(),
{
    if windows.len() == 0 {
        None
    } else if windows.first().xdg_toplevel_id == xdg_toplevel_id {
        Some(windows.first())
    } else {
        window_of_toplevel(windows.drop_first(), xdg_toplevel_id)
    }
}

/// The window that stands for the implicit view: the last one.
pub open spec fn implicit_window(windows: Seq<SctkFlutterWindow>) -> Option<SctkFlutterWindow> {
    if windows.len() == 0 {
        None
    } else {
        Some(windows.last())
    }
}

/// The call `call` on the window of surface `surface_id`, if the shell has
/// such a window.
pub open spec fn request_for_surface(
    windows: Seq<SctkFlutterWindow>,
    surface_id: u32,
    call: WindowCall,
) -> Option<WindowRequest> {
    match window_of_surface(windows, surface_id) {
        Some(window) => Some(WindowRequest { window: window.xdg_toplevel_id, call }),
        None => None,
    }
}

/// The calls that a frame of pointer events leads to: for each event, in
/// order, whose surface belongs to a window, a call on that window; events
/// on other surfaces are passed over. `surfaces` holds the surface of each
/// event.
pub open spec fn pointer_requests(windows: Seq<SctkFlutterWindow>, surfaces: Seq<u32>) -> Seq<
    WindowRequest,
>
    decreases surfaces.len(),
{
    if surfaces.len() == 0 {
        Seq::empty()
    } else {
        let earlier = pointer_requests(windows, surfaces.drop_last());
        let index = (surfaces.len() - 1) as usize;
        match request_for_surface(windows, surfaces.last(), WindowCall::PointerEvent { index }) {
            Some(request) => earlier.push(request),
            None => earlier,
        }
    }
}

impl Shell {
    /// What a configure event for toplevel `xdg_toplevel_id` leads to.
    pub open spec fn configure_outcome(
        self,
        xdg_toplevel_id: u32,
        configure: WindowConfigure,
        serial: u32,
    ) -> ConfigureOutcome {
        match window_of_toplevel(self.windows, xdg_toplevel_id) {
            None => ConfigureOutcome::UnknownWindow,
            Some(window) => if self.startup.engine_running {
                ConfigureOutcome::Forward(
                    WindowRequest {
                        window: window.xdg_toplevel_id,
                        call: WindowCall::Configure { configure, serial },
                    },
                )
            } else {
                ConfigureOutcome::Buffered
            },
        }
    }

    /// The state after a configure event for toplevel `xdg_toplevel_id`.
    pub open spec fn after_configure(
        self,
        xdg_toplevel_id: u32,
        configure: WindowConfigure,
        serial: u32,
    ) -> Shell {
        match window_of_toplevel(self.windows, xdg_toplevel_id) {
            None => self,
            Some(_) => Shell {
                startup: self.startup.after(
                    StartupEvent::Configure(PendingConfigure { configure, serial }),
                ),
                ..self
            },
        }
    }

    /// The call that hands the held-back configure event to the implicit
    /// window, if an event is held back and the window exists.
    pub open spec fn startup_configure(self) -> Option<WindowRequest> {
        match (self.startup.pending, implicit_window(self.windows)) {
            (Some(pending), Some(window)) => Some(
                WindowRequest {
                    window: window.xdg_toplevel_id,
                    call: WindowCall::Configure {
                        configure: pending.configure,
                        serial: pending.serial,
                    },
                },
            ),
            _ => None,
        }
    }
}

/// The state of the application between the events of the window system.
pub struct SctkApplicationState {
    windows: Vec<SctkFlutterWindow>,
    pointers: HashMap<u32, u32>,
    startup_synchronizer: ImplicitWindowStartupSynchronizer,
    stop_requested: bool,
}

impl View for SctkApplicationState {
    type V = Shell;

    closed spec fn view(&self) -> Shell {
        Shell {
            windows: self.windows@,
            pointers: self.pointers@,
            startup: self.startup_synchronizer@,
            stop_requested: self.stop_requested,
        }
    }
}

impl SctkApplicationState {
    /// The state at start: the implicit window, no pointer, and an engine
    /// that does not run yet.
    pub fn new(implicit_window: SctkFlutterWindow) -> (state: SctkApplicationState)
        ensures
            state@.windows == seq![implicit_window],
            state@.pointers == Map::<u32, u32>::empty(),
            state@.startup == Startup::initial(),
            !state@.stop_requested,
    {
        let mut windows: Vec<SctkFlutterWindow> = Vec::new();
        windows.push(implicit_window);
        assert(windows@ =~= seq![implicit_window]);
        SctkApplicationState {
            windows,
            pointers: HashMap::new(),
            startup_synchronizer: ImplicitWindowStartupSynchronizer::new(),
            stop_requested: false,
        }
    }

    /// Whether the engine runs.
    pub fn is_engine_running(&self) -> (running: bool)
        ensures
            running == self@.startup.engine_running,
            self@.startup.well_formed(),
    {
        self.startup_synchronizer.is_engine_running()
    }

    /// The configure event that is held back, if any.
    pub fn pending_configure(&self) -> (pending: Option<PendingConfigure>)
        ensures
            pending == self@.startup.pending,
    {
        self.startup_synchronizer.pending_configure()
    }

    /// Whether the window has asked to be closed, so that the event loop is
    /// to stop.
    pub fn stop_requested(&self) -> (stop: bool)
        ensures
            stop == self@.stop_requested,
    {
        self.stop_requested
    }

    /// The pointer of seat `seat_id`, if the seat has one.
    pub fn pointer_of_seat(&self, seat_id: u32) -> (pointer: Option<u32>)
        ensures
            pointer == (if self@.pointers.contains_key(seat_id) {
                Some(self@.pointers[seat_id])
            } else {
                None
            }),
    {
        match self.pointers.get(&seat_id) {
            Some(pointer) => Some(*pointer),
            None => None,
        }
    }

    /// The window that shows surface `surface_id`.
    pub fn find_window_by_surface_id(&self, surface_id: u32) -> (found: Option<SctkFlutterWindow>)
        ensures
            found == window_of_surface(self@.windows, surface_id),
            found matches Some(window) ==> window.wl_surface_id == surface_id
                && self@.windows.contains(window),
            found is None ==> forall|i: int|
                0 <= i < self@.windows.len() ==> self@.windows[i].wl_surface_id != surface_id,
    {
        let mut index: usize = 0;
        assert(self.windows@.skip(0) =~= self.windows@);
        while index < self.windows.len()
            invariant
                index <= self.windows@.len(),
                forall|i: int| 0 <= i < index ==> self.windows@[i].wl_surface_id != surface_id,
                window_of_surface(self.windows@, surface_id) == window_of_surface(
                    self.windows@.skip(index as int),
                    surface_id,
                ),
            decreases self.windows@.len() - index,
        {
            let window = self.windows[index];
            proof {
                let rest = self.windows@.skip(index as int);
                assert(rest.first() == self.windows@[index as int]);
                assert(rest.drop_first() =~= self.windows@.skip(index as int + 1));
            }
            if window.wl_surface_id == surface_id {
                return Some(window);
            }
            index += 1;
        }
        proof {
            assert(self.windows@.skip(index as int).len() == 0);
        }
        None
    }

    /// The window with toplevel `xdg_toplevel_id`.
    pub fn find_window_by_toplevel_id(&self, xdg_toplevel_id: u32) -> (found: Option<
        SctkFlutterWindow,
    >)
        ensures
            found == window_of_toplevel(self@.windows, xdg_toplevel_id),
            found matches Some(window) ==> window.xdg_toplevel_id == xdg_toplevel_id
                && self@.windows.contains(window),
            found is None ==> forall|i: int|
                0 <= i < self@.windows.len() ==> self@.windows[i].xdg_toplevel_id
                    != xdg_toplevel_id,
    {
        let mut index: usize = 0;
        assert(self.windows@.skip(0) =~= self.windows@);
        while index < self.windows.len()
            invariant
                index <= self.windows@.len(),
                forall|i: int|
                    0 <= i < index ==> self.windows@[i].xdg_toplevel_id != xdg_toplevel_id,
                window_of_toplevel(self.windows@, xdg_toplevel_id) == window_of_toplevel(
                    self.windows@.skip(index as int),
                    xdg_toplevel_id,
                ),
            decreases self.windows@.len() - index,
        {
            let window = self.windows[index];
            proof {
                let rest = self.windows@.skip(index as int);
                assert(rest.first() == self.windows@[index as int]);
                assert(rest.drop_first() =~= self.windows@.skip(index as int + 1));
            }
            if window.xdg_toplevel_id == xdg_toplevel_id {
                return Some(window);
            }
            index += 1;
        }
        proof {
            assert(self.windows@.skip(index as int).len() == 0);
        }
        None
    }

    /// The window of the implicit view.
    pub fn get_implicit_window(&self) -> (found: Option<SctkFlutterWindow>)
        ensures
            found == implicit_window(self@.windows),
    {
        if self.windows.len() == 0 {
            None
        } else {
            Some(self.windows[self.windows.len() - 1])
        }
    }

    /// The engine has started to run. The displays are to be made known to
    /// it, and the configure event that was held back, if any, is to go to
    /// the implicit window. From now on configure events are sent on as they
    /// arrive.
    pub fn maybe_send_startup_pending_configure(&mut self, outputs: &Vec<SctkOutput>) -> (actions:
        StartupActions)
        ensures
            final(self)@ == (Shell {
                startup: old(self)@.startup.after(StartupEvent::EngineStarted),
                ..old(self)@
            }),
            final(self)@.startup.engine_running,
            actions.configure == old(self)@.startup_configure(),
            actions.display_update.update_type == FlutterEngineDisplaysUpdateType::Startup,
            actions.display_update.displays@.len() == outputs@.len(),
            forall|i: int|
                0 <= i < outputs@.len() ==> actions.display_update.displays@[i] == (
                #[trigger] outputs@[i]).spec_display(),
    {
        let pending = self.startup_synchronizer.engine_started();
        let update = display_update(outputs);
        let configure = match pending {
            Some(pending) => match self.get_implicit_window() {
                Some(window) => Some(
                    WindowRequest {
                        window: window.xdg_toplevel_id,
                        call: WindowCall::Configure {
                            configure: pending.configure,
                            serial: pending.serial,
                        },
                    },
                ),
                None => None,
            },
            None => None,
        };
        StartupActions { display_update: update, configure }
    }

    /// The displays have changed. While the engine does not run this is
    /// passed over: the engine is told of the displays when it starts.
    /// Otherwise the notification that lists `outputs` is returned.
    pub fn notify_display_update(&self, outputs: &Vec<SctkOutput>) -> (update: Option<DisplayUpdate>)
        ensures
            update is Some == self@.startup.engine_running,
            update matches Some(update) ==> {
                &&& update.update_type == FlutterEngineDisplaysUpdateType::Startup
                &&& update.displays@.len() == outputs@.len()
                &&& forall|i: int|
                    0 <= i < outputs@.len() ==> update.displays@[i] == (
                    #[trigger] outputs@[i]).spec_display()
            },
    {
        if !self.startup_synchronizer.is_engine_running() {
            return None;
        }
        Some(display_update(outputs))
    }

    /// A configure event for the window with toplevel `xdg_toplevel_id`.
    pub fn configure(&mut self, xdg_toplevel_id: u32, configure: WindowConfigure, serial: u32) -> (outcome:
        ConfigureOutcome)
        ensures
            outcome == old(self)@.configure_outcome(xdg_toplevel_id, configure, serial),
            final(self)@ == old(self)@.after_configure(xdg_toplevel_id, configure, serial),
    {
        let window = match self.find_window_by_toplevel_id(xdg_toplevel_id) {
            Some(window) => window,
            None => {
                return ConfigureOutcome::UnknownWindow;
            },
        };
        match self.startup_synchronizer.configure(configure, serial) {
            Some(forward) => ConfigureOutcome::Forward(
                WindowRequest {
                    window: window.xdg_toplevel_id,
                    call: WindowCall::Configure {
                        configure: forward.configure,
                        serial: forward.serial,
                    },
                },
            ),
            None => ConfigureOutcome::Buffered,
        }
    }

    /// The window asks to be closed: the event loop is to stop.
    pub fn request_close(&mut self)
        ensures
            final(self)@ == (Shell { stop_requested: true, ..old(self)@ }),
    {
        self.stop_requested = true;
    }

    /// The scale factor of surface `surface_id` has changed.
    pub fn scale_factor_changed(&self, surface_id: u32, new_scale_factor: i32) -> (request: Option<
        WindowRequest,
    >)
        ensures
            request == request_for_surface(
                self@.windows,
                surface_id,
                WindowCall::ScaleFactorChanged { new_scale_factor },
            ),
    {
        match self.find_window_by_surface_id(surface_id) {
            Some(window) => Some(
                WindowRequest {
                    window: window.xdg_toplevel_id,
                    call: WindowCall::ScaleFactorChanged { new_scale_factor },
                },
            ),
            None => None,
        }
    }

    /// Surface `surface_id` has come onto an output.
    pub fn surface_enter(&self, surface_id: u32) -> (request: Option<WindowRequest>)
        ensures
            request == request_for_surface(
                self@.windows,
                surface_id,
                WindowCall::SurfaceOutputsChanged,
            ),
    {
        match self.find_window_by_surface_id(surface_id) {
            Some(window) => Some(
                WindowRequest {
                    window: window.xdg_toplevel_id,
                    call: WindowCall::SurfaceOutputsChanged,
                },
            ),
            None => None,
        }
    }

    /// Surface `surface_id` has left an output.
    pub fn surface_leave(&self, surface_id: u32) -> (request: Option<WindowRequest>)
        ensures
            request == request_for_surface(
                self@.windows,
                surface_id,
                WindowCall::SurfaceOutputsChanged,
            ),
    {
        self.surface_enter(surface_id)
    }

    /// A frame callback for a surface. `baton` is the token of the engine's
    /// pending request for a vsync, and `surface_outputs` what the window
    /// system tells of the outputs that show the surface, if the surface
    /// carries such a list. The engine is answered with the baton and the
    /// frame interval of the surface, or that of 60 frames a second where
    /// the surface has none.
    pub fn frame(&self, baton: isize, surface_outputs: Option<&Vec<Option<OutputInfo>>>) -> (request:
        VsyncRequest)
        ensures
            request.baton == baton,
            request.frame_interval_nanos == interval_or_default(
                surface_frame_interval(outputs_view(surface_outputs)),
            ),
    {
        let frame_interval = frame_interval_or_default(
            get_surface_frame_interval_in_nanos(surface_outputs),
        );
        VsyncRequest { baton, frame_interval_nanos: frame_interval }
    }

    /// A frame of pointer events; `surfaces` holds the surface of each.
    /// Returns the calls to make, see [`pointer_requests`].
    pub fn pointer_frame(&self, surfaces: &Vec<u32>) -> (requests: Vec<WindowRequest>)
        ensures
            requests@ == pointer_requests(self@.windows, surfaces@),
    {
        let mut requests: Vec<WindowRequest> = Vec::new();
        let mut index: usize = 0;
        while index < surfaces.len()
            invariant
                index <= surfaces@.len(),
                requests@ == pointer_requests(self@.windows, surfaces@.take(index as int)),
            decreases surfaces@.len() - index,
        {
            proof {
                let next = surfaces@.take(index as int + 1);
                assert(next.drop_last() =~= surfaces@.take(index as int));
                assert(next.last() == surfaces@[index as int]);
            }
            match self.find_window_by_surface_id(surfaces[index]) {
                Some(window) => {
                    requests.push(
                        WindowRequest {
                            window: window.xdg_toplevel_id,
                            call: WindowCall::PointerEvent { index },
                        },
                    );
                },
                None => {},
            }
            index += 1;
        }
        assert(surfaces@.take(index as int) =~= surfaces@);
        requests
    }

    /// A seat has gained `capability`. Returns whether a themed pointer is
    /// to be created for the seat, which is the case exactly for the pointer
    /// capability; the caller then reports how that went with
    /// [`SctkApplicationState::themed_pointer_created`].
    pub fn new_capability(&self, capability: Capability) -> (create: bool)
        ensures
            create == (capability == Capability::Pointer),
    {
        match capability {
            Capability::Pointer => true,
            _ => false,
        }
    }

    /// The attempt to create a themed pointer for seat `seat_id` has given
    /// `themed_pointer`. If there is one, it is the seat's pointer from now
    /// on; if not, the seat has no pointer. Either way the mouse cursor
    /// handler gets what came out.
    pub fn themed_pointer_created(
        &mut self,
        mouse_cursor_handler: &mut SctkMouseCursorHandler,
        seat_id: u32,
        themed_pointer: Option<ThemedPointer>,
    )
        ensures
            final(self)@ == (Shell {
                pointers: match themed_pointer {
                    Some(pointer) => old(self)@.pointers.insert(seat_id, pointer.pointer_id),
                    None => old(self)@.pointers.remove(seat_id),
                },
                ..old(self)@
            }),
            final(mouse_cursor_handler).spec_themed_pointer() == themed_pointer,
    {
        match themed_pointer {
            Some(pointer) => {
                self.pointers.insert(seat_id, pointer.pointer_id);
            },
            None => {
                self.pointers.remove(&seat_id);
            },
        }
        mouse_cursor_handler.set_themed_pointer(themed_pointer);
    }

    /// A seat has lost `capability`. With the pointer capability the seat's
    /// pointer goes, and the mouse cursor handler forgets its pointer if
    /// that belongs to the seat. Other capabilities change nothing.
    pub fn remove_capability(
        &mut self,
        mouse_cursor_handler: &mut SctkMouseCursorHandler,
        seat_id: u32,
        capability: Capability,
    )
        ensures
            capability == Capability::Pointer ==> final(self)@ == (Shell {
                pointers: old(self)@.pointers.remove(seat_id),
                ..old(self)@
            }) && final(mouse_cursor_handler).spec_themed_pointer() == (match old(mouse_cursor_handler).spec_themed_pointer() {
                Some(pointer) => if pointer.belongs_to(seat_id) {
                    None
                } else {
                    Some(pointer)
                },
                None => None,
            }),
            capability != Capability::Pointer ==> final(self)@ == old(self)@ && *final(mouse_cursor_handler) == *old(mouse_cursor_handler),
    {
        match capability {
            Capability::Pointer => {
                self.pointers.remove(&seat_id);
                mouse_cursor_handler.remove_themed_pointer_for_seat(seat_id);
            },
            _ => {},
        }
    }
}

/// The window found for a surface shows that surface and is one of the
/// windows; none is found exactly if no window shows the surface.
pub proof fn lemma_window_of_surface(windows: Seq<SctkFlutterWindow>, surface_id: u32)
    ensures
        match window_of_surface(windows, surface_id) {
            Some(window) => window.wl_surface_id == surface_id && windows.contains(window),
            None => forall|i: int| 0 <= i < windows.len() ==> windows[i].wl_surface_id != surface_id,
        },
    decreases windows.len(),
{
    if windows.len() > 0 && windows.first().wl_surface_id != surface_id {
        let rest = windows.drop_first();
        lemma_window_of_surface(rest, surface_id);
        match window_of_surface(rest, surface_id) {
            Some(window) => {
                let i = choose|i: int| 0 <= i < rest.len() && rest[i] == window;
                assert(windows[i + 1] == window);
            },
            None => {
                assert forall|i: int| 0 <= i < windows.len() implies windows[i].wl_surface_id
                    != surface_id by {
                    if i > 0 {
                        assert(rest[i - 1] == windows[i]);
                    }
                }
            },
        }
    } else if windows.len() > 0 {
        assert(windows[0] == windows.first());
    }
}

/// Whether `request` is a call for an event of the frame with surfaces
/// `surfaces`, on the window that shows the surface of that event.
pub open spec fn routes_pointer_event(
    windows: Seq<SctkFlutterWindow>,
    surfaces: Seq<u32>,
    request: WindowRequest,
) -> bool {
    &&& request.call is PointerEvent
    &&& request.call->index < surfaces.len()
    &&& window_of_surface(windows, surfaces[request.call->index as int]) matches Some(window)
        && window.xdg_toplevel_id == request.window
}

/// A frame of pointer events leads to at most one call for each event. Each
/// call names an event of the frame and goes to the window that shows the
/// surface of that event, and the calls come in the order of the events.
pub proof fn lemma_pointer_requests(windows: Seq<SctkFlutterWindow>, surfaces: Seq<u32>)
    requires
        surfaces.len() <= usize::MAX,
    ensures
        pointer_requests(windows, surfaces).len() <= surfaces.len(),
        forall|k: int|
            0 <= k < pointer_requests(windows, surfaces).len() ==> routes_pointer_event(
                windows,
                surfaces,
                #[trigger] pointer_requests(windows, surfaces)[k],
            ),
        forall|j: int, k: int|
            0 <= j < k < pointer_requests(windows, surfaces).len() ==> (#[trigger] pointer_requests(
                windows,
                surfaces,
            )[j]).call->index < (#[trigger] pointer_requests(windows, surfaces)[k]).call->index,
    decreases surfaces.len(),
{
    if surfaces.len() > 0 {
        let earlier = surfaces.drop_last();
        lemma_pointer_requests(windows, earlier);
        let all = pointer_requests(windows, surfaces);
        let before = pointer_requests(windows, earlier);
        let index = (surfaces.len() - 1) as usize;
        assert forall|k: int| 0 <= k < before.len() implies routes_pointer_event(
            windows,
            surfaces,
            #[trigger] before[k],
        ) && before[k].call->index < index by {
            assert(routes_pointer_event(windows, earlier, before[k]));
            assert(earlier[before[k].call->index as int] == surfaces[before[k].call->index as int]);
        }
        match request_for_surface(windows, surfaces.last(), WindowCall::PointerEvent { index }) {
            Some(request) => {
                assert(all == before.push(request));
                assert(routes_pointer_event(windows, surfaces, request));
                assert forall|k: int| 0 <= k < all.len() implies routes_pointer_event(
                    windows,
                    surfaces,
                    #[trigger] all[k],
                ) by {
                    if k < before.len() {
                        assert(all[k] == before[k]);
                    }
                }
                assert forall|j: int, k: int| 0 <= j < k < all.len() implies (#[trigger] all[j]).call->index
                    < (#[trigger] all[k]).call->index by {
                    assert(all[j] == before[j]);
                    if k < before.len() {
                        assert(all[k] == before[k]);
                    }
                }
            },
            None => {
                assert(all == before);
            },
        }
    }
}

} // verus!
