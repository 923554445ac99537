use vstd::prelude::*;

use crate::fps::{FpsReport, NANOS_PER_SECOND};
use crate::state::{
    animating, can_update, initial_state, key_exits, resized, updated, FrameUpdate, Key, State, StateView,
};

verus! {

/// The window events the scene reacts to.
#[derive(Clone, Copy, Debug, PartialEq, Eq, Structural)]
pub enum WindowEvent {
    CloseRequested,
    Resized { width: u32, height: u32 },
    /// A redraw; `elapsed_nanos` is the time since the previous one.
    RedrawRequested { elapsed_nanos: u64 },
    KeyboardInput { key: Key, pressed: bool },
    CursorMoved,
    Other,
}

/// What the window loop is to do after an event.
#[derive(Clone, Copy, Debug, PartialEq, Eq, Structural)]
pub enum Response {
    /// Nothing.
    Ignore,
    /// Leave the event loop.
    Exit,
    /// The window was resized; configure the surface at the new size when
    /// `reconfigure` is set.
    Resized { reconfigure: bool },
    /// Upload the update of the scene, then render a frame.
    Redraw(FrameUpdate),
}

/// The application: the part of the task to show and, once the window
/// exists, the scene.
pub struct App {
    state: Option<State>,
    config_zad_1: bool,
}

/// The abstract application.
pub struct AppView {
    pub state: Option<StateView>,
    pub config_zad_1: bool,
}

impl View for App {
    type V = AppView;

    closed spec fn view(&self) -> AppView {
        AppView {
            state: match self.state {
                Some(s) => Some(s@),
                None => None,
            },
            config_zad_1: self.config_zad_1,
        }
    }
}

/// The scene after `event`, and the response: without a scene every event
/// is ignored; a close request or Escape or Space pressed ends the loop; a
/// resize resizes the scene; a redraw updates it.
pub open spec fn on_event(s: StateView, event: WindowEvent) -> (StateView, Response) {
    match event {
        WindowEvent::CloseRequested => (s, Response::Exit),
        WindowEvent::Resized { width, height } => (
            resized(s, width, height),
            Response::Resized { reconfigure: width > 0 && height > 0 },
        ),
        WindowEvent::RedrawRequested { elapsed_nanos } => (
            updated(s, elapsed_nanos).0,
            Response::Redraw(updated(s, elapsed_nanos).1),
        ),
        WindowEvent::KeyboardInput { key, pressed } => (
            s,
            if key_exits(key, pressed) {
                Response::Exit
            } else {
                Response::Ignore
            },
        ),
        WindowEvent::CursorMoved => (s, Response::Ignore),
        WindowEvent::Other => (s, Response::Ignore),
    }
}

/// The event can be handled: a redraw needs room in the counters.
pub open spec fn can_handle(s: StateView, event: WindowEvent) -> bool {
    event is RedrawRequested ==> can_update(s)
}

impl App {
    /// An application for part one (`config`) or part two of the task, with
    /// no window yet.
    pub fn new(config: bool) -> (app: App)
        ensures
            app@.state.is_none(),
            app@.config_zad_1 == config,
    {
        App { state: None, config_zad_1: config }
    }

    /// The scene, once the window exists.
    pub fn state(&self) -> (s: &Option<State>)
        ensures
            match *s {
                Some(st) => self@.state == Some(st@),
                None => self@.state.is_none(),
            },
    {
        &self.state
    }

    /// The window of `width` by `height` pixels now exists: a fresh scene
    /// for the chosen part of the task takes it.
    pub fn resumed(&mut self, width: u32, height: u32)
        ensures
            final(self)@.config_zad_1 == old(self)@.config_zad_1,
            final(self)@.state == Some(initial_state(old(self)@.config_zad_1, width, height)),
    {
        self.state = Some(State::new(self.config_zad_1, width, height));
    }

    /// Handles one window event.
    pub fn window_event(&mut self, event: WindowEvent) -> (response: Response)
        requires
            old(self)@.state matches Some(s) ==> can_handle(s, event),
        ensures
            final(self)@.config_zad_1 == old(self)@.config_zad_1,
            old(self)@.state.is_none() ==> response == Response::Ignore && final(self)@.state
                == old(self)@.state,
            old(self)@.state matches Some(s) ==> final(self)@.state == Some(on_event(s, event).0)
                && response == on_event(s, event).1,
    {
        match &mut self.state {
            None => Response::Ignore,
            Some(state) => match event {
                WindowEvent::CloseRequested => Response::Exit,
                WindowEvent::Resized { width, height } => {
                    let reconfigure = state.resize(width, height);
                    Response::Resized { reconfigure }
                },
                WindowEvent::RedrawRequested { elapsed_nanos } => {
                    let update = state.update(elapsed_nanos);
                    Response::Redraw(update)
                },
                WindowEvent::KeyboardInput { key, pressed } => {
                    if state.handle_key(key, pressed) {
                        Response::Exit
                    } else {
                        Response::Ignore
                    }
                },
                WindowEvent::CursorMoved => Response::Ignore,
                WindowEvent::Other => Response::Ignore,
            },
        }
    }
}

/// How the application answers each kind of event, in terms of the event
/// itself: a close request ends the loop; a key event ends it exactly when it
/// is a press of Escape or Space and is otherwise ignored, leaving the scene
/// as it was; a resize asks for a new configuration exactly when both sides
/// are non-zero, and the scene then has exactly that size; a redraw always
/// asks for a frame, carries the frame rate exactly when the window reaches
/// a second, whatever the part of the task, and carries angles exactly while
/// the animation runs; the cursor and other events are ignored.
pub proof fn lemma_event_responses(s: StateView, event: WindowEvent)
    requires
        s.nanos < NANOS_PER_SECOND,
        s.frames < u32::MAX,
    ensures
        event is CloseRequested ==> on_event(s, event) == (s, Response::Exit),
        event matches WindowEvent::KeyboardInput { key, pressed } ==> {
            &&& (on_event(s, event).1 == Response::Exit <==> (pressed && (key == Key::Escape
                || key == Key::Space)))
            &&& (on_event(s, event).1 == Response::Exit || on_event(s, event).1
                == Response::Ignore)
            &&& on_event(s, event).0 == s
        },
        event matches WindowEvent::Resized { width, height } ==> {
            &&& on_event(s, event).1 == (Response::Resized {
                reconfigure: width > 0 && height > 0,
            })
            &&& (width > 0 && height > 0) ==> on_event(s, event).0.width == width
                && on_event(s, event).0.height == height && on_event(s, event).0.surface_configured
            &&& !(width > 0 && height > 0) ==> on_event(s, event).0 == s
        },
        event matches WindowEvent::RedrawRequested { elapsed_nanos } ==> {
            &&& on_event(s, event).1 is Redraw
            &&& (on_event(s, event).1->Redraw_0.fps is Some <==> s.nanos + elapsed_nanos
                >= NANOS_PER_SECOND)
            &&& (on_event(s, event).1->Redraw_0.fps matches Some(r) ==> r.frames == s.frames
                + 1)
            &&& (on_event(s, event).1->Redraw_0.angles is Some <==> animating(s))
        },
        event is CursorMoved ==> on_event(s, event) == (s, Response::Ignore),
        event is Other ==> on_event(s, event) == (s, Response::Ignore),
{
}

} // verus!
