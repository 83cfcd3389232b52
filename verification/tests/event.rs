use ability_clipboard::event::{Event, EventPayloads, TerminateAnswer};

#[derive(Clone)]
struct Host;

impl EventPayloads for Host {
    type IntervalInfo = u64;
    type Size = (u32, u32);
    type ContentRect = (i32, i32, u32, u32);
    type AvoidAreaInfo = ();
    type Configuration = String;
    type SaveLoader = ();
    type SaveSaver = ();
    type InputEvent = char;
}

#[test]
fn events_are_named_after_their_variant() {
    let answer = TerminateAnswer::new();
    let events: Vec<(Event<'_, Host>, &str)> = vec![
        (Event::WindowCreate, "WindowCreate"),
        (Event::WindowDestroy, "WindowDestroy"),
        (Event::WindowRedraw(16), "WindowRedraw"),
        (Event::WindowResize { window_id: 1, size: (800, 600) }, "WindowResize"),
        (Event::ContentRectChange((0, 0, 800, 600)), "ContentRectChange"),
        (Event::AvoidAreaChange(()), "AvoidAreaChange"),
        (Event::ConfigChanged("dark".to_string()), "ConfigChanged"),
        (Event::LowMemory, "LowMemory"),
        (Event::Start, "Start"),
        (Event::GainedFocus, "GainedFocus"),
        (Event::LostFocus, "LostFocus"),
        (Event::Resume(()), "Resume"),
        (Event::Pause, "Pause"),
        (Event::Stop, "Stop"),
        (Event::SaveState(()), "SaveState"),
        (Event::Create, "Create"),
        (Event::Destroy, "Destroy"),
        (Event::SurfaceCreate, "SurfaceCreate"),
        (Event::SurfaceDestroy, "SurfaceDestroy"),
        (Event::Input('a'), "Input"),
        (Event::KeyboardEvent(300), "KeyboardEvent"),
        (Event::NewWant { uri: "app://open".to_string() }, "NewWant"),
        (Event::PrepareToTerminate { answer: &answer }, "PrepareToTerminate"),
        (Event::UserEvent, "UserEvent"),
    ];
    for (event, name) in &events {
        assert_eq!(event.as_str(), *name);
        assert_eq!(event.clone().as_str(), *name);
    }
}

#[test]
fn terminate_answer_records_prevention() {
    let answer = TerminateAnswer::new();
    assert!(!answer.is_prevented());
    let event: Event<'_, Host> = Event::PrepareToTerminate { answer: &answer };
    if let Event::PrepareToTerminate { answer } = &event {
        answer.prevent();
    }
    assert!(answer.is_prevented());
    answer.prevent();
    assert!(answer.is_prevented());
    assert!(!TerminateAnswer::default().is_prevented());
}

#[test]
fn terminate_answers_compare_and_clone_by_value() {
    let a = TerminateAnswer::new();
    let b = TerminateAnswer::new();
    assert!(a == b);
    b.prevent();
    assert!(a != b);
    let c = b.clone();
    assert!(c.is_prevented());
    assert!(c == b);
    a.prevent();
    assert!(a == b);
}
