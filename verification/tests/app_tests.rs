use std::cell::RefCell;
use std::collections::VecDeque;
use std::rc::Rc;

use ubi::app::Application;
use ubi::app::DefaultAction;
use ubi::error::UbiError;
use ubi::event::Event;
use ubi::event::KeyPressedEventData;
use ubi::event::MouseMovedEventData;
use ubi::event::WindowCloseEventData;
use ubi::event::WindowResizeEventData;
use ubi::layer::Layer;
use ubi::window::Window;
use ubi::window::WindowData;

#[derive(Default)]
struct WindowState {
    resizes: Vec<(i32, i32)>,
    clears: usize,
    swaps: usize,
    batches: VecDeque<Vec<Event>>,
    poll_fails: bool,
}

struct MockWindow {
    state: Rc<RefCell<WindowState>>,
}

impl MockWindow {
    fn new(state: &Rc<RefCell<WindowState>>) -> Self {
        Self { state: Rc::clone(state) }
    }
}

impl Window for MockWindow {
    fn create(_window_data: WindowData<'_>) -> Result<Self, UbiError> {
        Ok(Self { state: Rc::new(RefCell::new(WindowState::default())) })
    }

    fn poll_events(&mut self, events: &mut Vec<Event>) -> Result<(), UbiError> {
        let mut state = self.state.borrow_mut();
        if state.poll_fails {
            return Err(UbiError::SdlError(String::from("event pump lost")));
        }
        if let Some(batch) = state.batches.pop_front() {
            for event in batch {
                events.push(event);
            }
        }
        Ok(())
    }

    fn get_size(&self) -> (u32, u32) {
        (1280, 720)
    }

    fn swap_buffers(&self) {
        self.state.borrow_mut().swaps += 1;
    }

    fn clear(&self) {
        self.state.borrow_mut().clears += 1;
    }

    fn resize(&self, width: i32, height: i32) {
        self.state.borrow_mut().resizes.push((width, height));
    }
}

type CallLog = Rc<RefCell<Vec<(usize, &'static str)>>>;

struct RecordingLayer {
    id: usize,
    consume: bool,
    log: CallLog,
}

impl RecordingLayer {
    fn new(id: usize, consume: bool, log: &CallLog) -> Self {
        Self { id, consume, log: Rc::clone(log) }
    }
}

impl Layer for RecordingLayer {
    fn on_attach(&mut self) {
        self.log.borrow_mut().push((self.id, "attach"));
    }

    fn on_detach(&mut self) {
        self.log.borrow_mut().push((self.id, "detach"));
    }

    fn on_update(&mut self, _events: &mut Vec<Event>) {
        self.log.borrow_mut().push((self.id, "update"));
    }

    fn on_event(&mut self, event: &mut Event) {
        self.log.borrow_mut().push((self.id, "event"));
        if self.consume {
            event.set_handled(true);
        }
    }
}

fn fresh_app(
    state: &Rc<RefCell<WindowState>>,
) -> Application<MockWindow, RecordingLayer> {
    Application::new(MockWindow::new(state))
}

#[test]
fn default_window_data() {
    let data = WindowData::default();
    assert_eq!(data.name, "UBI");
    assert_eq!(data.width, 1280);
    assert_eq!(data.height, 720);
}

#[test]
fn new_application_is_stopped() {
    let state = Rc::new(RefCell::new(WindowState::default()));
    let app = fresh_app(&state);
    assert!(!app.is_running());
}

#[test]
fn push_layer_attaches_and_orders() {
    let state = Rc::new(RefCell::new(WindowState::default()));
    let log: CallLog = Rc::new(RefCell::new(Vec::new()));
    let mut app = fresh_app(&state);
    app.push_overlay(RecordingLayer::new(10, false, &log));
    app.push_layer(RecordingLayer::new(0, false, &log));
    app.push_layer(RecordingLayer::new(1, false, &log));
    assert_eq!(
        log.borrow().as_slice(),
        &[(10, "attach"), (0, "attach"), (1, "attach")]
    );
    assert_eq!(app.layer_stack.len(), 3);
    assert_eq!(app.layer_stack.boundary(), 2);
}

#[test]
fn unconsumed_close_stops_the_loop_once() {
    let state = Rc::new(RefCell::new(WindowState::default()));
    let mut app = fresh_app(&state);
    app.start();
    assert!(app.is_running());
    let mut event = Event::WindowClose(WindowCloseEventData::new());
    let action = app.on_event(&mut event);
    assert_eq!(action, DefaultAction::CloseRequested);
    assert!(!app.is_running());
    assert!(event.handled());
    // A later close finds the flag already down and leaves it there.
    let mut event = Event::WindowClose(WindowCloseEventData::new());
    let action = app.on_event(&mut event);
    assert_eq!(action, DefaultAction::CloseRequested);
    assert!(!app.is_running());
}

#[test]
fn unconsumed_resize_reaches_window_exactly_once() {
    let state = Rc::new(RefCell::new(WindowState::default()));
    let mut app = fresh_app(&state);
    app.start();
    let mut event = Event::WindowResize(WindowResizeEventData::new(1024, 768));
    let action = app.on_event(&mut event);
    assert_eq!(action, DefaultAction::WindowResized { width: 1024, height: 768 });
    assert!(event.handled());
    assert!(app.is_running());
    assert_eq!(state.borrow().resizes, vec![(1024, 768)]);
}

#[test]
fn prehandled_event_triggers_no_default_action() {
    let state = Rc::new(RefCell::new(WindowState::default()));
    let mut app = fresh_app(&state);
    app.start();

    let mut close = Event::WindowClose(WindowCloseEventData::new());
    close.set_handled(true);
    let action = app.handle_default(&mut close);
    assert_eq!(action, DefaultAction::NoAction);
    assert!(app.is_running());

    let mut resize = Event::WindowResize(WindowResizeEventData::new(1024, 768));
    resize.set_handled(true);
    let action = app.on_event(&mut resize);
    assert_eq!(action, DefaultAction::NoAction);
    assert!(app.is_running());
    assert!(state.borrow().resizes.is_empty());
}

#[test]
fn variants_without_default_action_are_still_marked_handled() {
    let state = Rc::new(RefCell::new(WindowState::default()));
    let mut app = fresh_app(&state);
    app.start();
    let mut moved = Event::MouseMoved(MouseMovedEventData::new(5, 5));
    let action = app.on_event(&mut moved);
    assert_eq!(action, DefaultAction::NoAction);
    assert!(moved.handled());
    assert!(app.is_running());

    let mut key = Event::KeyPressed(KeyPressedEventData::new(32, 0));
    let action = app.handle_default(&mut key);
    assert_eq!(action, DefaultAction::NoAction);
    assert!(key.handled());
}

#[test]
fn consuming_layer_shields_default_handling() {
    let state = Rc::new(RefCell::new(WindowState::default()));
    let log: CallLog = Rc::new(RefCell::new(Vec::new()));
    let mut app = fresh_app(&state);
    app.push_layer(RecordingLayer::new(0, false, &log));
    app.push_layer(RecordingLayer::new(1, true, &log));
    app.push_layer(RecordingLayer::new(2, false, &log));
    app.start();

    let mut close = Event::WindowClose(WindowCloseEventData::new());
    let action = app.on_event(&mut close);
    // The consumer at index 1 stops the walk and shields the default close
    // handling, so the loop keeps running and index 0 never saw the event.
    let events: Vec<usize> = log
        .borrow()
        .iter()
        .filter(|(_, k)| *k == "event")
        .map(|(id, _)| *id)
        .collect();
    assert_eq!(events, vec![2, 1]);
    assert_eq!(action, DefaultAction::NoAction);
    assert!(app.is_running());
    assert!(close.handled());

    let mut resize = Event::WindowResize(WindowResizeEventData::new(640, 480));
    app.on_event(&mut resize);
    assert!(state.borrow().resizes.is_empty());
}

#[test]
fn frame_updates_layers_then_routes_polled_events() {
    let state = Rc::new(RefCell::new(WindowState::default()));
    let log: CallLog = Rc::new(RefCell::new(Vec::new()));
    state
        .borrow_mut()
        .batches
        .push_back(vec![Event::WindowClose(WindowCloseEventData::new())]);
    let mut app = fresh_app(&state);
    app.push_layer(RecordingLayer::new(0, false, &log));
    app.push_overlay(RecordingLayer::new(10, false, &log));
    app.start();

    let result = app.run_frame();
    assert!(result.is_ok());
    assert!(!app.is_running());
    let calls: Vec<(usize, &'static str)> = log
        .borrow()
        .iter()
        .filter(|(_, k)| *k == "update" || *k == "event")
        .cloned()
        .collect();
    assert_eq!(
        calls,
        vec![(0, "update"), (10, "update"), (10, "event"), (0, "event")]
    );
    assert_eq!(state.borrow().clears, 1);
    assert_eq!(state.borrow().swaps, 1);
}

#[test]
fn polling_failure_aborts_the_frame() {
    let state = Rc::new(RefCell::new(WindowState::default()));
    state.borrow_mut().poll_fails = true;
    let mut app = fresh_app(&state);
    app.start();
    let result = app.run_frame();
    match result {
        Err(UbiError::SdlError(m)) => assert_eq!(m, "event pump lost"),
        other => panic!("expected an SDL error, got {:?}", other),
    }
    // The frame was aborted before presentation.
    assert_eq!(state.borrow().swaps, 0);
    assert!(app.is_running());
}

#[test]
fn driver_loop_runs_until_close() {
    let state = Rc::new(RefCell::new(WindowState::default()));
    {
        let mut st = state.borrow_mut();
        st.batches.push_back(Vec::new());
        st.batches.push_back(vec![Event::MouseMoved(MouseMovedEventData::new(1, 2))]);
        st.batches.push_back(vec![Event::WindowClose(WindowCloseEventData::new())]);
    }
    let mut app = fresh_app(&state);
    app.start();
    let mut frames = 0;
    while app.is_running() {
        app.run_frame().expect("polling failed");
        frames += 1;
    }
    assert_eq!(frames, 3);
    assert_eq!(state.borrow().clears, 3);
    assert_eq!(state.borrow().swaps, 3);
}
