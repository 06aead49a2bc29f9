use runtime_events::{
    listen, listen_application, listen_raw, listen_with, ApplicationEvent, Event, KeyboardEvent,
    MouseEvent, RuntimeEvent, Status, Timestamp, WindowEvent, WindowId,
};

fn key_or_redraw(event: Event, _status: Status, _window: WindowId) -> Option<&'static str> {
    match event {
        Event::Keyboard(KeyboardEvent::KeyPressed { .. }) => Some("key"),
        Event::Window(WindowEvent::RedrawRequested(_)) => Some("redraw"),
        _ => None,
    }
}

fn pressed_key(event: Event, _status: Status, _window: WindowId) -> Option<u32> {
    match event {
        Event::Keyboard(KeyboardEvent::KeyPressed { key }) => Some(key),
        _ => None,
    }
}

fn one_tick() -> Vec<RuntimeEvent> {
    vec![
        RuntimeEvent::Interaction {
            window: WindowId(1),
            event: Event::Window(WindowEvent::RedrawRequested(Timestamp(1_000))),
            status: Status::Ignored,
        },
        RuntimeEvent::Interaction {
            window: WindowId(1),
            event: Event::Keyboard(KeyboardEvent::KeyPressed { key: 32 }),
            status: Status::Ignored,
        },
        RuntimeEvent::Application { has_visible_windows: true },
    ]
}

#[test]
fn a_tick_through_listen_with() {
    let sub = listen_with(key_or_redraw);
    assert_eq!(sub.dispatch(&one_tick()), vec!["key"]);
}

#[test]
fn a_tick_through_listen_raw() {
    let sub = listen_raw(key_or_redraw);
    assert_eq!(sub.dispatch(&one_tick()), vec!["redraw", "key"]);
}

#[test]
fn a_tick_through_listen_application() {
    let sub = listen_application();
    assert_eq!(
        sub.dispatch(&one_tick()),
        vec![ApplicationEvent::ReOpen { has_visible_windows: true }]
    );
}

#[test]
fn a_tick_through_listen() {
    let sub = listen();
    assert_eq!(
        sub.dispatch(&one_tick()),
        vec![Event::Keyboard(KeyboardEvent::KeyPressed { key: 32 })]
    );
}

#[test]
fn an_empty_tick_queues_nothing() {
    assert_eq!(listen().dispatch(&[]), vec![]);
    assert_eq!(listen_application().dispatch(&[]), vec![]);
    assert_eq!(listen_with(pressed_key).dispatch(&[]), vec![]);
}

#[test]
fn messages_keep_the_order_of_dispatch() {
    let press = |key: u32, status: Status| RuntimeEvent::Interaction {
        window: WindowId(7),
        event: Event::Keyboard(KeyboardEvent::KeyPressed { key }),
        status,
    };
    let noise = RuntimeEvent::Interaction {
        window: WindowId(7),
        event: Event::Mouse(MouseEvent::CursorMoved { x: 1, y: 2 }),
        status: Status::Ignored,
    };
    let events = vec![
        press(3, Status::Ignored),
        noise,
        press(1, Status::Captured),
        RuntimeEvent::Application { has_visible_windows: false },
        press(2, Status::Ignored),
        press(3, Status::Captured),
    ];
    let sub = listen_with(pressed_key);
    assert_eq!(sub.dispatch(&events), vec![3, 1, 2, 3]);
}

#[test]
fn each_event_is_projected_once() {
    let events = vec![
        RuntimeEvent::Application { has_visible_windows: true },
        RuntimeEvent::Application { has_visible_windows: true },
        RuntimeEvent::Application { has_visible_windows: false },
    ];
    assert_eq!(
        listen_application().dispatch(&events),
        vec![
            ApplicationEvent::ReOpen { has_visible_windows: true },
            ApplicationEvent::ReOpen { has_visible_windows: true },
            ApplicationEvent::ReOpen { has_visible_windows: false },
        ]
    );
}

#[test]
fn dispatch_agrees_with_project_event_by_event() {
    let sub = listen();
    let events = one_tick();
    let mut one_by_one = Vec::new();
    for event in &events {
        if let Some(message) = sub.project(*event) {
            one_by_one.push(message);
        }
    }
    assert_eq!(sub.dispatch(&events), one_by_one);
}

#[test]
fn captured_events_leave_no_trace_in_listen() {
    let events = vec![
        RuntimeEvent::Interaction {
            window: WindowId(1),
            event: Event::Mouse(MouseEvent::ButtonPressed { button: 0 }),
            status: Status::Captured,
        },
        RuntimeEvent::Interaction {
            window: WindowId(1),
            event: Event::Mouse(MouseEvent::ButtonReleased { button: 0 }),
            status: Status::Ignored,
        },
    ];
    assert_eq!(
        listen().dispatch(&events),
        vec![Event::Mouse(MouseEvent::ButtonReleased { button: 0 })]
    );
}
