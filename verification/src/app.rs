//! The application: one window, one layer stack, a running flag, and the
//! frame loop that polls events, updates the layers front to back, propagates
//! each event back to front, and applies the built-in default handling to
//! whatever no layer consumed.

use vstd::prelude::*;

use crate::error::UbiError;
use crate::event::spec_handled;
use crate::event::spec_with_handled;
use crate::event::Event;
use crate::layer::Layer;
use crate::layer::LayerStack;
use crate::window::Window;

verus! {

/// What the built-in default handling did with an event no layer consumed:
/// nothing, a close request, or a resize forwarded to the window.
#[derive(Debug, Copy, Clone, PartialEq, Eq, Structural)]
pub enum DefaultAction {
    NoAction,
    CloseRequested,
    WindowResized { width: i32, height: i32 },
}

/// The default handling of one event: an already-handled event triggers
/// nothing; an unhandled close stops the loop; an unhandled resize is
/// forwarded to the window; every other variant has no default action.
pub open spec fn spec_default_action(e: Event) -> DefaultAction {
    if spec_handled(e) {
        DefaultAction::NoAction
    } else {
        match e {
            Event::WindowClose(_) => DefaultAction::CloseRequested,
            Event::WindowResize(d) => DefaultAction::WindowResized {
                width: d.width,
                height: d.height,
            },
            _ => DefaultAction::NoAction,
        }
    }
}

/// An already-handled event is a fixed point of default handling: it
/// triggers no action, and marking it handled changes nothing, so passing it
/// through the default-handling step a second time has no effect at all.
pub proof fn lemma_default_handling_idempotent(e: Event)
    requires
        spec_handled(e),
    ensures
        spec_default_action(e) == DefaultAction::NoAction,
        spec_with_handled(e, true) == e,
{
}

/// The application shell around a window backend `W` and one layer type `L`.
pub struct Application<W, L> {
    pub window: W,
    pub running: bool,
    pub layer_stack: LayerStack<L>,
}

impl<W: Window, L: Layer> Application<W, L> {
    pub open spec fn wf(&self) -> bool {
        self.layer_stack.wf()
    }

    /// Wrap a window; the loop is stopped until `start` raises the flag.
    pub fn new(window: W) -> (r: Self)
        ensures
            r.wf(),
            r.running == false,
            r.layer_stack.layers@.len() == 0,
            r.layer_stack.overlay_start == 0,
            r.window == window,
    {
        Self { window, running: false, layer_stack: LayerStack::new() }
    }

    pub fn is_running(&self) -> (r: bool)
        ensures
            r == self.running,
    {
        self.running
    }

    /// Attach a plain layer and insert it at the boundary: after all current
    /// plain layers, before all overlays.
    pub fn push_layer(&mut self, layer: L)
        requires
            old(self).wf(),
        ensures
            final(self).wf(),
            final(self).running == old(self).running,
            final(self).window == old(self).window,
            final(self).layer_stack.overlay_start == old(self).layer_stack.overlay_start + 1,
            final(self).layer_stack.layers@.len() == old(self).layer_stack.layers@.len() + 1,
            final(self).layer_stack.layers@.remove(old(self).layer_stack.overlay_start as int)
                == old(self).layer_stack.layers@,
    {
        let mut layer = layer;
        layer.on_attach();
        let ghost before = self.layer_stack.layers@;
        let ghost at = self.layer_stack.overlay_start as int;
        self.layer_stack.push_layer(layer);
        proof {
            assert(self.layer_stack.layers@.remove(at) =~= before);
        }
    }

    /// Attach an overlay and append it at the very end of the stack.
    pub fn push_overlay(&mut self, layer: L)
        requires
            old(self).wf(),
        ensures
            final(self).wf(),
            final(self).running == old(self).running,
            final(self).window == old(self).window,
            final(self).layer_stack.overlay_start == old(self).layer_stack.overlay_start,
            final(self).layer_stack.layers@.len() == old(self).layer_stack.layers@.len() + 1,
            final(self).layer_stack.layers@.drop_last() == old(self).layer_stack.layers@,
    {
        let mut layer = layer;
        layer.on_attach();
        let ghost before = self.layer_stack.layers@;
        self.layer_stack.push_overlay(layer);
        proof {
            assert(self.layer_stack.layers@.drop_last() =~= before);
        }
    }

    /// Apply the built-in default handling to one event and report what was
    /// decided; the event leaves marked handled whatever its variant, and an
    /// event that arrived already handled triggers nothing and is returned
    /// unchanged.
    pub fn handle_default(&mut self, event: &mut Event) -> (action: DefaultAction)
        ensures
            action == spec_default_action(*old(event)),
            *final(event) == spec_with_handled(*old(event), true),
            final(self).running == (if action is CloseRequested {
                false
            } else {
                old(self).running
            }),
            final(self).window == old(self).window,
            final(self).layer_stack == old(self).layer_stack,
    {
        if event.handled() {
            return DefaultAction::NoAction;
        }
        let action = match event {
            Event::WindowClose(_) => DefaultAction::CloseRequested,
            Event::WindowResize(d) => DefaultAction::WindowResized {
                width: d.get_width(),
                height: d.get_height(),
            },
            _ => DefaultAction::NoAction,
        };
        if let DefaultAction::CloseRequested = action {
            self.running = false;
        }
        event.set_handled(true);
        action
    }

    /// Route one event: offer it to the layers back to front until one
    /// consumes it, then apply the default handling to whatever is left and
    /// forward a resize to the window. The event always leaves handled; the
    /// running flag only ever falls, and only on a close request.
    pub fn on_event(&mut self, event: &mut Event) -> (action: DefaultAction)
        requires
            old(self).wf(),
        ensures
            final(self).wf(),
            final(self).layer_stack.layers@.len() == old(self).layer_stack.layers@.len(),
            final(self).layer_stack.overlay_start == old(self).layer_stack.overlay_start,
            final(self).layer_stack.tags@ == old(self).layer_stack.tags@,
            final(self).window == old(self).window,
            spec_handled(*final(event)),
            final(self).running == (if action is CloseRequested {
                false
            } else {
                old(self).running
            }),
            old(self).layer_stack.layers@.len() == 0 ==> action == spec_default_action(
                *old(event),
            ) && *final(event) == spec_with_handled(*old(event), true),
    {
        let _visited = self.layer_stack.propagate(event);
        let action = self.handle_default(event);
        if let DefaultAction::WindowResized { width, height } = action {
            self.window.resize(width, height);
        }
        action
    }

    /// Start the loop: the running flag rises and frames may be run until it
    /// falls again. The embedder drives the loop by calling `run_frame` while
    /// `is_running` holds.
    pub fn start(&mut self)
        ensures
            final(self).running == true,
            final(self).window == old(self).window,
            final(self).layer_stack == old(self).layer_stack,
    {
        self.running = true;
    }

    /// One frame of the loop: clear the frame, update every layer front to
    /// back (layers may append synthetic events), poll the platform for this
    /// frame's events, route every buffered event, and present the frame. A
    /// polling failure aborts the frame and is passed to the caller; the
    /// frame is not presented then.
    pub fn run_frame(&mut self) -> (r: Result<(), UbiError>)
        requires
            old(self).wf(),
        ensures
            final(self).wf(),
            final(self).layer_stack.layers@.len() == old(self).layer_stack.layers@.len(),
            final(self).layer_stack.overlay_start == old(self).layer_stack.overlay_start,
            r is Err ==> final(self).running == old(self).running,
    {
        let mut events: Vec<Event> = Vec::new();
        self.window.clear();
        let _order = self.layer_stack.update_all(&mut events);
        match self.window.poll_events(&mut events) {
            Ok(_) => {},
            Err(e) => {
                return Err(e);
            },
        }
        let mut j: usize = 0;
        while j < events.len()
            invariant
                self.wf(),
                j <= events@.len(),
                self.layer_stack.layers@.len() == old(self).layer_stack.layers@.len(),
                self.layer_stack.overlay_start == old(self).layer_stack.overlay_start,
            decreases events@.len() - j,
        {
            let event = &mut events[j];
            self.on_event(event);
            j = j + 1;
        }
        self.window.swap_buffers();
        Ok(())
    }
}

} // verus!
