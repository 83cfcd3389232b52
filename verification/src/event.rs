//! Ability lifecycle events and the answer slot of the prepare-to-terminate
//! probe.

use std::sync::atomic::AtomicBool;
use std::sync::atomic::Ordering;
use vstd::prelude::*;

verus! {

/// Answer slot for the PC/2in1 prepare-to-terminate probe
/// (`Event::PrepareToTerminate`).
///
/// The handler receives it by shared reference and records its answer
/// through `prevent`; the caller reads it back after the handler returned.
/// Two slots compare equal when they agree on the prevention state.
#[derive(Debug, Default)]
pub struct TerminateAnswer(AtomicBool);

impl TerminateAnswer {
    /// A slot in which termination is not prevented.
    pub fn new() -> Self {
        TerminateAnswer(AtomicBool::new(false))
    }

    /// Marks the termination as prevented: the app wants to keep running.
    pub fn prevent(&self) {
        self.0.store(true, Ordering::SeqCst);
    }

    /// Whether prevention was requested. Only meaningful after the
    /// synchronous handler call that received the reference has returned.
    pub fn is_prevented(&self) -> bool {
        self.0.load(Ordering::SeqCst)
    }
}

impl PartialEq for TerminateAnswer {
    fn eq(&self, other: &Self) -> (r: bool) {
        self.is_prevented() == other.is_prevented()
    }
}

/// Equality reads both slots' current answers when it is called, so it is
/// not a function of the two slots as values, and no equality law is
/// claimed for it.
impl vstd::std_specs::cmp::PartialEqSpecImpl for TerminateAnswer {
    open spec fn obeys_eq_spec() -> bool {
        false
    }

    open spec fn eq_spec(&self, other: &Self) -> bool {
        self == other
    }
}

impl Clone for TerminateAnswer {
    fn clone(&self) -> Self {
        TerminateAnswer(AtomicBool::new(self.is_prevented()))
    }
}

/// The payload types that the host's events carry; the events themselves
/// only route them.
pub trait EventPayloads {
    /// Frame interval of a redraw.
    type IntervalInfo: Clone;
    /// New window size of a resize.
    type Size: Clone;
    /// New content rectangle of a window.
    type ContentRect: Clone;
    /// New avoid areas of a window.
    type AvoidAreaInfo: Clone;
    /// New environment configuration.
    type Configuration: Clone;
    /// Access to state saved before the window was paused.
    type SaveLoader: Clone;
    /// Where to save state when the ability saves it.
    type SaveSaver: Clone;
    /// A surface input (IME) event.
    type InputEvent: Clone;
}

/// An ability, window-stage, window or surface lifecycle event.
#[derive(Clone)]
pub enum Event<'a, P: EventPayloads> {
    /// Window stage created (`onWindowStageCreate`).
    WindowCreate,
    /// Window stage destroyed (`onWindowStageDestroy`).
    WindowDestroy,
    WindowRedraw(P::IntervalInfo),
    /// Window resized (`windowSizeChange`); `window_id` is 0 for the main
    /// window and positive for a float sub-window.
    WindowResize { window_id: i64, size: P::Size },
    /// Window rectangle changed (`windowRectChange`).
    ContentRectChange(P::ContentRect),
    /// Window avoid area changed (`avoidAreaChange`).
    AvoidAreaChange(P::AvoidAreaInfo),
    /// Configuration updated (`onConfigurationUpdated`).
    ConfigChanged(P::Configuration),
    /// System memory is critically low (`onMemoryLevel`).
    LowMemory,
    /// Window shown.
    Start,
    /// Window stage active.
    GainedFocus,
    /// Window stage inactive.
    LostFocus,
    /// Window resumed.
    Resume(P::SaveLoader),
    /// Window paused.
    Pause,
    /// Window hidden.
    Stop,
    /// Ability saves its state (`onAbilitySaveState`).
    SaveState(P::SaveSaver),
    /// Ability created (`onAbilityCreate`).
    Create,
    /// Ability destroyed (`onAbilityDestroy`).
    Destroy,
    /// XComponent surface created; EGL/OpenGL rendering can start.
    SurfaceCreate,
    /// XComponent surface destroyed.
    SurfaceDestroy,
    /// Surface input (IME).
    Input(P::InputEvent),
    /// Keyboard height changed (`onKeyboardHeightChange`).
    KeyboardEvent(i32),
    /// New want delivered to the ability (deep link / URL scheme).
    NewWant { uri: String },
    /// Close requested through the window close button, taskbar or tray
    /// while termination can still be cancelled: the handler records its
    /// answer in `answer` (`TerminateAnswer::prevent` keeps the app running).
    PrepareToTerminate { answer: &'a TerminateAnswer },
    UserEvent,
}

/// The name of each event's variant.
pub open spec fn event_name<'a, P: EventPayloads>(event: Event<'a, P>) -> Seq<char> {
    match event {
        Event::WindowCreate => "WindowCreate"@,
        Event::WindowDestroy => "WindowDestroy"@,
        Event::WindowRedraw(_) => "WindowRedraw"@,
        Event::WindowResize { .. } => "WindowResize"@,
        Event::ContentRectChange(_) => "ContentRectChange"@,
        Event::AvoidAreaChange(_) => "AvoidAreaChange"@,
        Event::ConfigChanged(_) => "ConfigChanged"@,
        Event::LowMemory => "LowMemory"@,
        Event::Start => "Start"@,
        Event::GainedFocus => "GainedFocus"@,
        Event::LostFocus => "LostFocus"@,
        Event::Resume(_) => "Resume"@,
        Event::Pause => "Pause"@,
        Event::Stop => "Stop"@,
        Event::SaveState(_) => "SaveState"@,
        Event::Create => "Create"@,
        Event::Destroy => "Destroy"@,
        Event::SurfaceCreate => "SurfaceCreate"@,
        Event::SurfaceDestroy => "SurfaceDestroy"@,
        Event::Input(_) => "Input"@,
        Event::UserEvent => "UserEvent"@,
        Event::KeyboardEvent(_) => "KeyboardEvent"@,
        Event::NewWant { .. } => "NewWant"@,
        Event::PrepareToTerminate { .. } => "PrepareToTerminate"@,
    }
}

/// The position of an event's variant in the declaration of `Event`.
pub open spec fn event_variant<'a, P: EventPayloads>(event: Event<'a, P>) -> nat {
    match event {
        Event::WindowCreate => 0,
        Event::WindowDestroy => 1,
        Event::WindowRedraw(_) => 2,
        Event::WindowResize { .. } => 3,
        Event::ContentRectChange(_) => 4,
        Event::AvoidAreaChange(_) => 5,
        Event::ConfigChanged(_) => 6,
        Event::LowMemory => 7,
        Event::Start => 8,
        Event::GainedFocus => 9,
        Event::LostFocus => 10,
        Event::Resume(_) => 11,
        Event::Pause => 12,
        Event::Stop => 13,
        Event::SaveState(_) => 14,
        Event::Create => 15,
        Event::Destroy => 16,
        Event::SurfaceCreate => 17,
        Event::SurfaceDestroy => 18,
        Event::Input(_) => 19,
        Event::KeyboardEvent(_) => 20,
        Event::NewWant { .. } => 21,
        Event::PrepareToTerminate { .. } => 22,
        Event::UserEvent => 23,
    }
}

/// The name of the variant at position `i` of the declaration of `Event`.
pub open spec fn variant_name(i: nat) -> Seq<char> {
    if i == 0 {
        "WindowCreate"@
    } else if i == 1 {
        "WindowDestroy"@
    } else if i == 2 {
        "WindowRedraw"@
    } else if i == 3 {
        "WindowResize"@
    } else if i == 4 {
        "ContentRectChange"@
    } else if i == 5 {
        "AvoidAreaChange"@
    } else if i == 6 {
        "ConfigChanged"@
    } else if i == 7 {
        "LowMemory"@
    } else if i == 8 {
        "Start"@
    } else if i == 9 {
        "GainedFocus"@
    } else if i == 10 {
        "LostFocus"@
    } else if i == 11 {
        "Resume"@
    } else if i == 12 {
        "Pause"@
    } else if i == 13 {
        "Stop"@
    } else if i == 14 {
        "SaveState"@
    } else if i == 15 {
        "Create"@
    } else if i == 16 {
        "Destroy"@
    } else if i == 17 {
        "SurfaceCreate"@
    } else if i == 18 {
        "SurfaceDestroy"@
    } else if i == 19 {
        "Input"@
    } else if i == 20 {
        "KeyboardEvent"@
    } else if i == 21 {
        "NewWant"@
    } else if i == 22 {
        "PrepareToTerminate"@
    } else {
        "UserEvent"@
    }
}

/// Length and three characters that tell the variant names apart.
spec fn name_key(s: Seq<char>) -> (nat, char, char, char) {
    (s.len(), s[0], s[2], if s.len() > 8 { s[8] } else { ' ' })
}

spec fn key_of_variant(i: nat) -> (nat, char, char, char) {
    if i == 0 {
        (12nat, 'W', 'n', 'e')
    } else if i == 1 {
        (13nat, 'W', 'n', 's')
    } else if i == 2 {
        (12nat, 'W', 'n', 'd')
    } else if i == 3 {
        (12nat, 'W', 'n', 's')
    } else if i == 4 {
        (17nat, 'C', 'n', 'e')
    } else if i == 5 {
        (15nat, 'A', 'o', 'a')
    } else if i == 6 {
        (13nat, 'C', 'n', 'a')
    } else if i == 7 {
        (9nat, 'L', 'w', 'y')
    } else if i == 8 {
        (5nat, 'S', 'a', ' ')
    } else if i == 9 {
        (11nat, 'G', 'i', 'c')
    } else if i == 10 {
        (9nat, 'L', 's', 's')
    } else if i == 11 {
        (6nat, 'R', 's', ' ')
    } else if i == 12 {
        (5nat, 'P', 'u', ' ')
    } else if i == 13 {
        (4nat, 'S', 'o', ' ')
    } else if i == 14 {
        (9nat, 'S', 'v', 'e')
    } else if i == 15 {
        (6nat, 'C', 'e', ' ')
    } else if i == 16 {
        (7nat, 'D', 's', ' ')
    } else if i == 17 {
        (13nat, 'S', 'r', 'r')
    } else if i == 18 {
        (14nat, 'S', 'r', 'e')
    } else if i == 19 {
        (5nat, 'I', 'p', ' ')
    } else if i == 20 {
        (13nat, 'K', 'y', 'E')
    } else if i == 21 {
        (7nat, 'N', 'w', ' ')
    } else if i == 22 {
        (18nat, 'P', 'e', 'o')
    } else {
        (9nat, 'U', 'e', 't')
    }
}

proof fn lemma_variant_name_key(i: nat)
    requires
        i < 24,
    ensures
        name_key(variant_name(i)) == key_of_variant(i),
{
    reveal_strlit("WindowCreate");
    reveal_strlit("WindowDestroy");
    reveal_strlit("WindowRedraw");
    reveal_strlit("WindowResize");
    reveal_strlit("ContentRectChange");
    reveal_strlit("AvoidAreaChange");
    reveal_strlit("ConfigChanged");
    reveal_strlit("LowMemory");
    reveal_strlit("Start");
    reveal_strlit("GainedFocus");
    reveal_strlit("LostFocus");
    reveal_strlit("Resume");
    reveal_strlit("Pause");
    reveal_strlit("Stop");
    reveal_strlit("SaveState");
    reveal_strlit("Create");
    reveal_strlit("Destroy");
    reveal_strlit("SurfaceCreate");
    reveal_strlit("SurfaceDestroy");
    reveal_strlit("Input");
    reveal_strlit("KeyboardEvent");
    reveal_strlit("NewWant");
    reveal_strlit("PrepareToTerminate");
    reveal_strlit("UserEvent");
}

proof fn lemma_event_name_of_variant<'a, P: EventPayloads>(event: Event<'a, P>)
    ensures
        event_variant(event) < 24,
        event_name(event) == variant_name(event_variant(event)),
{
}

/// An event's name depends on its variant alone, and no two variants share
/// a name.
pub proof fn law_event_names_identify_variants<'a, 'b, P: EventPayloads>(
    e1: Event<'a, P>,
    e2: Event<'b, P>,
)
    ensures
        event_name(e1) == event_name(e2) <==> event_variant(e1) == event_variant(e2),
{
    lemma_event_name_of_variant(e1);
    lemma_event_name_of_variant(e2);
    lemma_variant_name_key(event_variant(e1));
    lemma_variant_name_key(event_variant(e2));
}

impl<'a, P: EventPayloads> Event<'a, P> {
    /// The name of this event's variant.
    pub fn as_str(&self) -> (name: &'static str)
        ensures
            name@ == event_name(*self),
    {
        match self {
            Event::WindowCreate => "WindowCreate",
            Event::WindowDestroy => "WindowDestroy",
            Event::WindowRedraw(_) => "WindowRedraw",
            Event::WindowResize { .. } => "WindowResize",
            Event::ContentRectChange(_) => "ContentRectChange",
            Event::AvoidAreaChange(_) => "AvoidAreaChange",
            Event::ConfigChanged(_) => "ConfigChanged",
            Event::LowMemory => "LowMemory",
            Event::Start => "Start",
            Event::GainedFocus => "GainedFocus",
            Event::LostFocus => "LostFocus",
            Event::Resume(_) => "Resume",
            Event::Pause => "Pause",
            Event::Stop => "Stop",
            Event::SaveState(_) => "SaveState",
            Event::Create => "Create",
            Event::Destroy => "Destroy",
            Event::SurfaceCreate => "SurfaceCreate",
            Event::SurfaceDestroy => "SurfaceDestroy",
            Event::Input(_) => "Input",
            Event::UserEvent => "UserEvent",
            Event::KeyboardEvent(_) => "KeyboardEvent",
            Event::NewWant { .. } => "NewWant",
            Event::PrepareToTerminate { .. } => "PrepareToTerminate",
        }
    }
}

} // verus!
