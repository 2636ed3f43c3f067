use std::cell::RefCell;
use std::rc::Rc;

use ubi::event::Event;
use ubi::event::WindowCloseEventData;
use ubi::layer::Layer;
use ubi::layer::LayerStack;

type CallLog = Rc<RefCell<Vec<(usize, &'static str)>>>;

struct RecordingLayer {
    id: usize,
    consume: bool,
    log: CallLog,
}

impl RecordingLayer {
    fn new(id: usize, consume: bool, log: &CallLog) -> Self {
        Self { id, consume, log: Rc::clone(log) }
    }
}

impl Layer for RecordingLayer {
    fn on_attach(&mut self) {
        self.log.borrow_mut().push((self.id, "attach"));
    }

    fn on_detach(&mut self) {
        self.log.borrow_mut().push((self.id, "detach"));
    }

    fn on_update(&mut self, _events: &mut Vec<Event>) {
        self.log.borrow_mut().push((self.id, "update"));
    }

    fn on_event(&mut self, event: &mut Event) {
        self.log.borrow_mut().push((self.id, "event"));
        if self.consume {
            event.set_handled(true);
        }
    }
}

fn entries_of<'a>(log: &'a CallLog, kind: &str) -> Vec<usize> {
    log.borrow()
        .iter()
        .filter(|(_, k)| *k == kind)
        .map(|(id, _)| *id)
        .collect()
}

#[test]
fn boundary_never_exceeds_length() {
    let mut stack: LayerStack<i32> = LayerStack::new();
    assert!(stack.boundary() <= stack.len());
    stack.push_overlay(100);
    assert!(stack.boundary() <= stack.len());
    stack.push_layer(1);
    assert!(stack.boundary() <= stack.len());
    stack.push_layer(2);
    assert!(stack.boundary() <= stack.len());
    stack.pop_overlay();
    assert!(stack.boundary() <= stack.len());
    stack.pop_overlay();
    assert!(stack.boundary() <= stack.len());
    stack.pop_layer();
    assert!(stack.boundary() <= stack.len());
    stack.pop_layer();
    assert!(stack.boundary() <= stack.len());
    stack.pop_layer();
    assert!(stack.boundary() <= stack.len());
    assert_eq!(stack.len(), 0);
}

#[test]
fn layers_precede_overlays_in_storage() {
    // Values below 10 are pushed as layers, values at 10 and above as
    // overlays; storage must keep every layer before every overlay.
    let mut stack: LayerStack<i32> = LayerStack::new();
    stack.push_overlay(10);
    stack.push_layer(1);
    stack.push_overlay(11);
    stack.push_layer(2);
    stack.push_layer(3);
    assert_eq!(stack.len(), 5);
    assert_eq!(stack.boundary(), 3);
    let stored: Vec<i32> = (0..stack.len()).map(|i| *stack.get(i)).collect();
    assert_eq!(stored, vec![1, 2, 3, 10, 11]);
}

#[test]
fn push_and_pop_both_regions() {
    let mut stack: LayerStack<i32> = LayerStack::new();
    assert_eq!(stack.pop_layer(), None);
    assert_eq!(stack.pop_overlay(), None);

    stack.push_layer(1);
    stack.push_layer(2);
    stack.push_overlay(10);

    // Popping a layer removes the most recently pushed layer, not the
    // overlay at the end.
    assert_eq!(stack.pop_layer(), Some(2));
    assert_eq!(stack.pop_overlay(), Some(10));
    assert_eq!(stack.pop_overlay(), None);
    assert_eq!(stack.pop_layer(), Some(1));
    assert_eq!(stack.pop_layer(), None);
    assert_eq!(stack.len(), 0);
}

#[test]
fn update_order_is_ascending() {
    let log: CallLog = Rc::new(RefCell::new(Vec::new()));
    let mut stack: LayerStack<RecordingLayer> = LayerStack::new();
    stack.push_layer(RecordingLayer::new(0, false, &log));
    stack.push_layer(RecordingLayer::new(1, false, &log));
    stack.push_layer(RecordingLayer::new(2, false, &log));
    let mut events: Vec<Event> = Vec::new();
    stack.update_all(&mut events);
    assert_eq!(entries_of(&log, "update"), vec![0, 1, 2]);
}

#[test]
fn event_order_is_descending() {
    let log: CallLog = Rc::new(RefCell::new(Vec::new()));
    let mut stack: LayerStack<RecordingLayer> = LayerStack::new();
    stack.push_layer(RecordingLayer::new(0, false, &log));
    stack.push_layer(RecordingLayer::new(1, false, &log));
    stack.push_layer(RecordingLayer::new(2, false, &log));
    let mut event = Event::WindowClose(WindowCloseEventData::new());
    stack.propagate(&mut event);
    assert_eq!(entries_of(&log, "event"), vec![2, 1, 0]);
    assert!(!event.handled());
}

#[test]
fn propagation_short_circuits_at_consumer() {
    let log: CallLog = Rc::new(RefCell::new(Vec::new()));
    let mut stack: LayerStack<RecordingLayer> = LayerStack::new();
    stack.push_layer(RecordingLayer::new(0, false, &log));
    stack.push_layer(RecordingLayer::new(1, true, &log));
    stack.push_layer(RecordingLayer::new(2, false, &log));
    let mut event = Event::WindowClose(WindowCloseEventData::new());
    stack.propagate(&mut event);
    // The consumer at index 1 stops the walk: index 0 never sees the event.
    assert_eq!(entries_of(&log, "event"), vec![2, 1]);
    assert!(event.handled());
}

#[test]
fn overlay_pushed_first_still_updates_last() {
    let log: CallLog = Rc::new(RefCell::new(Vec::new()));
    let mut stack: LayerStack<RecordingLayer> = LayerStack::new();
    stack.push_overlay(RecordingLayer::new(10, false, &log));
    stack.push_layer(RecordingLayer::new(0, false, &log));
    stack.push_layer(RecordingLayer::new(1, false, &log));
    let mut events: Vec<Event> = Vec::new();
    stack.update_all(&mut events);
    assert_eq!(entries_of(&log, "update"), vec![0, 1, 10]);

    // And the overlay is offered events first.
    let mut event = Event::WindowClose(WindowCloseEventData::new());
    stack.propagate(&mut event);
    assert_eq!(entries_of(&log, "event"), vec![10, 1, 0]);
}

#[test]
fn detach_all_reaches_every_layer_and_empties_the_stack() {
    let log: CallLog = Rc::new(RefCell::new(Vec::new()));
    let mut stack: LayerStack<RecordingLayer> = LayerStack::new();
    stack.push_layer(RecordingLayer::new(0, false, &log));
    stack.push_layer(RecordingLayer::new(1, false, &log));
    stack.push_overlay(RecordingLayer::new(10, false, &log));
    stack.push_overlay(RecordingLayer::new(11, false, &log));
    stack.detach_all();
    assert_eq!(stack.len(), 0);
    assert_eq!(stack.boundary(), 0);
    // Overlays leave first, back to front, then the layers, back to front.
    assert_eq!(entries_of(&log, "detach"), vec![11, 10, 1, 0]);
}
