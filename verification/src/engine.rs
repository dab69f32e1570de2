//! The engine's event queue and the decisions it takes on each window event.
use vstd::prelude::*;
use crate::window::{InputState, Key, WindowBuilder, WindowEvent};

verus! {

/// The events of the current frame, in the order they arrived.
pub struct Events {
    events: Vec<WindowEvent>,
}

impl View for Events {
    type V = Seq<WindowEvent>;

    closed spec fn view(&self) -> Seq<WindowEvent> {
        self.events@
    }
}

/// Whether `key` went down in one of `events`.
pub open spec fn spec_is_pressed(events: Seq<WindowEvent>, key: Key) -> bool {
    exists|i: int|
        0 <= i < events.len() && #[trigger] events[i] == (WindowEvent::KeyInput {
            key,
            state: InputState::Pressed,
        })
}

impl Events {
    /// No events.
    pub fn new() -> (e: Events)
        ensures
            e@ == Seq::<WindowEvent>::empty(),
    {
        Events { events: Vec::new() }
    }

    /// Whether `f` holds of one of the events. `f` is asked of the events in
    /// order until it holds.
    pub fn matches<F: Fn(&WindowEvent) -> bool>(&self, f: F) -> (r: bool)
        requires
            forall|i: int| 0 <= i < self@.len() ==> f.requires((&self@[i],)),
        ensures
            r ==> exists|i: int| 0 <= i < self@.len() && f.ensures((&self@[i],), true),
            !r ==> forall|i: int| 0 <= i < self@.len() ==> f.ensures((&self@[i],), false),
    {
        let mut i: usize = 0;
        while i < self.events.len()
            invariant
                i <= self@.len(),
                forall|j: int| 0 <= j < self@.len() ==> f.requires((&self@[j],)),
                forall|j: int| 0 <= j < i ==> f.ensures((&self@[j],), false),
            decreases self@.len() - i,
        {
            if f(&self.events[i]) {
                return true;
            }
            i = i + 1;
        }
        false
    }

    /// Whether `input_key` went down during the frame.
    pub fn is_pressed(&self, input_key: Key) -> (r: bool)
        ensures
            r == spec_is_pressed(self@, input_key),
    {
        let mut i: usize = 0;
        while i < self.events.len()
            invariant
                i <= self@.len(),
                forall|j: int|
                    0 <= j < i ==> #[trigger] self@[j] != (WindowEvent::KeyInput {
                        key: input_key,
                        state: InputState::Pressed,
                    }),
            decreases self@.len() - i,
        {
            match self.events[i] {
                WindowEvent::KeyInput { key, state: InputState::Pressed } => {
                    if key == input_key {
                        assert(self@[i as int] == (WindowEvent::KeyInput {
                            key: input_key,
                            state: InputState::Pressed,
                        }));
                        return true;
                    }
                },
                _ => {},
            }
            i = i + 1;
        }
        false
    }

    /// Records `event`.
    pub fn push(&mut self, event: WindowEvent)
        ensures
            final(self)@ == old(self)@.push(event),
    {
        self.events.push(event)
    }

    /// The events, in order.
    pub fn as_slice(&self) -> (s: &[WindowEvent])
        ensures
            s@ == self@,
    {
        self.events.as_slice()
    }

    /// The events of the frame that is run now, in order; the queue is left
    /// empty for the next frame.
    pub fn take_frame(&mut self) -> (frame: Vec<WindowEvent>)
        ensures
            frame@ == old(self)@,
            final(self)@ == Seq::<WindowEvent>::empty(),
    {
        let mut frame: Vec<WindowEvent> = Vec::new();
        core::mem::swap(&mut frame, &mut self.events);
        frame
    }

    /// Forgets all events.
    pub fn clear(&mut self)
        ensures
            final(self)@ == Seq::<WindowEvent>::empty(),
    {
        self.events.clear()
    }

    /// Records or acts on one window event. Nothing happens before the
    /// renderer and the event handler exist (`ready` false). A resize is
    /// recorded, and the window and the renderer are resized when the size
    /// changed; a redraw request runs a frame on the recorded events, which
    /// the frame takes out of the queue; a close request closes the window; the end of a batch of
    /// events asks for a redraw; every other event is recorded.
    pub fn on_window_event(&mut self, ready: bool, window_size: (u32, u32), event: WindowEvent) -> (action: EngineAction)
        ensures
            action == spec_engine_action(ready, window_size, event),
            final(self)@ == if spec_records(ready, event) {
                old(self)@.push(event)
            } else {
                old(self)@
            },
    {
        if !ready {
            return EngineAction::Nothing;
        }
        match event {
            WindowEvent::Resized(width, height) => {
                self.events.push(event);
                if window_size.0 != width || window_size.1 != height {
                    EngineAction::Resize { width, height }
                } else {
                    EngineAction::Nothing
                }
            },
            WindowEvent::RedrawRequested => EngineAction::Frame,
            WindowEvent::CloseRequested => EngineAction::Close,
            WindowEvent::EventsCleared => EngineAction::RequestRedraw,
            _ => {
                self.events.push(event);
                EngineAction::Nothing
            },
        }
    }
}

/// What the engine does in answer to a window event.
#[derive(Clone, Copy, PartialEq, Eq, Structural, Debug)]
pub enum EngineAction {
    /// Nothing beyond recording the event, if it is recorded.
    Nothing,
    /// Resize the window and the renderer.
    Resize { width: u32, height: u32 },
    /// Run a frame: take the recorded events (`Events::take_frame`) and go
    /// through `frame_phases` with them.
    Frame,
    /// Close the window.
    Close,
    /// Ask the window for a redraw.
    RequestRedraw,
}

pub open spec fn spec_engine_action(ready: bool, window_size: (u32, u32), event: WindowEvent) -> EngineAction {
    if !ready {
        EngineAction::Nothing
    } else {
        match event {
            WindowEvent::Resized(width, height) => if window_size != (width, height) {
                EngineAction::Resize { width, height }
            } else {
                EngineAction::Nothing
            },
            WindowEvent::RedrawRequested => EngineAction::Frame,
            WindowEvent::CloseRequested => EngineAction::Close,
            WindowEvent::EventsCleared => EngineAction::RequestRedraw,
            _ => EngineAction::Nothing,
        }
    }
}

/// Whether an event is kept for the frame: every event but redraw and close
/// requests and the end of a batch, once the engine is ready.
pub open spec fn spec_records(ready: bool, event: WindowEvent) -> bool {
    ready && !(event is RedrawRequested || event is CloseRequested || event is EventsCleared)
}

/// One phase of a frame.
#[derive(Clone, Copy, PartialEq, Eq, Structural, Debug)]
pub enum FramePhase {
    /// The event handler updates with the frame's events.
    Update,
    /// The renderer begins a frame.
    BeginFrame,
    /// The event handler renders.
    Render,
    /// The renderer presents the frame.
    Present,
}

/// The phases of the frame a redraw runs, in order. The frame's events are
/// taken from the queue for it (`Events::take_frame`), so the queue is empty
/// once the frame is done.
pub fn frame_phases() -> (phases: Vec<FramePhase>)
    ensures
        phases@ == seq![
            FramePhase::Update,
            FramePhase::BeginFrame,
            FramePhase::Render,
            FramePhase::Present,
        ],
{
    vec![FramePhase::Update, FramePhase::BeginFrame, FramePhase::Render, FramePhase::Present]
}

/// A redraw runs a frame and is not itself recorded, so the frame, taking
/// the queue's events (`Events::take_frame`), runs on exactly the events
/// recorded before it and leaves the queue empty for the next one.
pub proof fn lemma_redraw_runs_recorded_events(window_size: (u32, u32))
    ensures
        spec_engine_action(true, window_size, WindowEvent::RedrawRequested) == EngineAction::Frame,
        !spec_records(true, WindowEvent::RedrawRequested),
{
}

/// What the engine is started with.
pub struct EngineBuilder {
    pub window_builder: WindowBuilder,
}

impl Default for EngineBuilder {
    fn default() -> (b: EngineBuilder)
        ensures
            b.window_builder.width == 800,
            b.window_builder.height == 800,
            b.window_builder.show_cursor,
            b.window_builder.title@ == "Cool app"@,
    {
        EngineBuilder { window_builder: WindowBuilder::default() }
    }
}

impl EngineBuilder {
    /// The same engine with the window opened with `window_builder`.
    pub fn with_window(self, window_builder: WindowBuilder) -> (b: EngineBuilder)
        ensures
            b.window_builder == window_builder,
    {
        let mut this = self;
        this.window_builder = window_builder;
        this
    }
}

/// A resize is acted on once: when the engine has taken the size a resize
/// event asked for, the same event is only recorded.
pub proof fn lemma_resize_acted_on_once(window_size: (u32, u32), width: u32, height: u32)
    ensures
        spec_engine_action(true, window_size, WindowEvent::Resized(width, height)) matches EngineAction::Resize { width: w, height: h } ==> spec_engine_action(
            true,
            (w, h),
            WindowEvent::Resized(width, height),
        ) == EngineAction::Nothing,
        spec_records(true, WindowEvent::Resized(width, height)),
{
}

/// How a ready engine answers window events: a resize to a size that
/// differs from the window's in width, in height or in both is acted on by
/// resizing to exactly that size, a resize to the same size is not, and both
/// are kept for the frame; a redraw runs a frame, a close request closes, the
/// end of a batch asks for a redraw, and none of those three is kept; key and
/// mouse events are kept and ask for nothing more. Before the engine is ready
/// no event is answered or kept.
pub proof fn lemma_window_event_answers(window_size: (u32, u32), width: u32, height: u32, event: WindowEvent)
    ensures
        width != window_size.0 ==> spec_engine_action(true, window_size, WindowEvent::Resized(width, height))
            == (EngineAction::Resize { width, height }),
        height != window_size.1 ==> spec_engine_action(true, window_size, WindowEvent::Resized(width, height))
            == (EngineAction::Resize { width, height }),
        width == window_size.0 && height == window_size.1 ==> spec_engine_action(
            true,
            window_size,
            WindowEvent::Resized(width, height),
        ) == EngineAction::Nothing,
        spec_records(true, WindowEvent::Resized(width, height)),
        spec_engine_action(true, window_size, WindowEvent::RedrawRequested) == EngineAction::Frame,
        spec_engine_action(true, window_size, WindowEvent::CloseRequested) == EngineAction::Close,
        spec_engine_action(true, window_size, WindowEvent::EventsCleared) == EngineAction::RequestRedraw,
        !spec_records(true, WindowEvent::RedrawRequested),
        !spec_records(true, WindowEvent::CloseRequested),
        !spec_records(true, WindowEvent::EventsCleared),
        (event is KeyInput || event is MouseInput || event is MouseMotion || event is Scroll) ==> {
            &&& spec_engine_action(true, window_size, event) == EngineAction::Nothing
            &&& spec_records(true, event)
        },
        spec_engine_action(false, window_size, event) == EngineAction::Nothing,
        !spec_records(false, event),
{
}

/// A key counts as pressed in a frame once a press of it arrives: adding an
/// event makes it pressed exactly when it was already or the event is its
/// press; a release or another key's press changes nothing for it.
pub proof fn lemma_pressed_after_push(events: Seq<WindowEvent>, e: WindowEvent, key: Key)
    ensures
        spec_is_pressed(events.push(e), key) == (spec_is_pressed(events, key) || e == (WindowEvent::KeyInput {
            key,
            state: InputState::Pressed,
        })),
        !spec_is_pressed(Seq::<WindowEvent>::empty(), key),
{
    let pushed = events.push(e);
    let press = WindowEvent::KeyInput { key, state: InputState::Pressed };
    if spec_is_pressed(events, key) {
        let i = choose|i: int| 0 <= i < events.len() && #[trigger] events[i] == press;
        assert(pushed[i] == press);
    }
    if e == press {
        assert(pushed[events.len() as int] == press);
    }
    if spec_is_pressed(pushed, key) {
        let i = choose|i: int| 0 <= i < pushed.len() && #[trigger] pushed[i] == press;
        if i < events.len() {
            assert(events[i] == press);
        }
    }
}

} // verus!
