//! Layers and the layer stack.
//!
//! A layer is a pluggable unit of per-frame behaviour. The stack keeps plain
//! layers in front of all overlays, separated by a movable boundary index:
//! updates run front to back, events propagate back to front, so overlays see
//! events first and may consume them before the layers beneath.

use vstd::prelude::*;

use crate::event::spec_handled;
use crate::event::Event;

verus! {

/// A unit of per-frame behaviour with an attach/detach lifecycle, an update
/// hook that may append synthetic events, and an event hook that may consume
/// the event by setting its `handled` flag.
pub trait Layer {
    fn on_attach(&mut self);

    fn on_detach(&mut self);

    fn on_update(&mut self, events: &mut Vec<Event>);

    fn on_event(&mut self, event: &mut Event);
}

/// An ordered stack of layers, partitioned at `overlay_start`: slots below
/// the boundary were pushed as plain layers, slots at or above it as
/// overlays. The ghost `tags` sequence records, per slot, whether it was
/// pushed as an overlay; well-formedness ties it to the boundary, so the
/// partition is kept by every operation.
pub struct LayerStack<L> {
    pub layers: Vec<L>,
    pub overlay_start: usize,
    pub tags: Ghost<Seq<bool>>,
}

impl<L> LayerStack<L> {
    /// The boundary never exceeds the length, and a slot was pushed as an
    /// overlay exactly when it sits at or above the boundary.
    pub open spec fn wf(&self) -> bool {
        &&& self.overlay_start <= self.layers@.len()
        &&& self.tags@.len() == self.layers@.len()
        &&& forall|i: int|
            0 <= i < self.tags@.len() ==> (self.tags@[i] <==> i >= self.overlay_start)
    }

    /// An empty stack with the boundary at zero.
    pub fn new() -> (r: Self)
        ensures
            r.wf(),
            r.layers@.len() == 0,
            r.overlay_start == 0,
    {
        Self { layers: Vec::new(), overlay_start: 0, tags: Ghost(Seq::empty()) }
    }

    pub fn len(&self) -> (r: usize)
        ensures
            r == self.layers@.len(),
    {
        self.layers.len()
    }

    pub fn boundary(&self) -> (r: usize)
        ensures
            r == self.overlay_start,
    {
        self.overlay_start
    }

    /// The layer stored at index `i`.
    pub fn get(&self, i: usize) -> (r: &L)
        requires
            i < self.layers@.len(),
        ensures
            *r == self.layers@[i as int],
    {
        &self.layers[i]
    }

    /// Insert a plain layer at the boundary and advance the boundary, so it
    /// lands after all current layers and before all overlays.
    pub fn push_layer(&mut self, layer: L)
        requires
            old(self).wf(),
        ensures
            final(self).wf(),
            final(self).layers@ == old(self).layers@.insert(
                old(self).overlay_start as int,
                layer,
            ),
            final(self).overlay_start == old(self).overlay_start + 1,
            final(self).tags@ == old(self).tags@.insert(old(self).overlay_start as int, false),
    {
        self.layers.insert(self.overlay_start, layer);
        proof {
            self.tags@ = self.tags@.insert(self.overlay_start as int, false);
        }
        let grown_len = self.layers.len();
        assert(self.overlay_start < grown_len);
        self.overlay_start = self.overlay_start + 1;
    }

    /// Remove and return the most recently pushed plain layer, or `None` if
    /// no plain layer is left. Ownership moves back to the caller, who is
    /// responsible for invoking `on_detach` before dropping the layer.
    pub fn pop_layer(&mut self) -> (r: Option<L>)
        requires
            old(self).wf(),
        ensures
            final(self).wf(),
            old(self).overlay_start == 0 ==> r is None && *final(self) == *old(self),
            old(self).overlay_start > 0 ==> {
                &&& r == Some(old(self).layers@[old(self).overlay_start - 1])
                &&& final(self).layers@ == old(self).layers@.remove(old(self).overlay_start - 1)
                &&& final(self).overlay_start == old(self).overlay_start - 1
                &&& final(self).tags@ == old(self).tags@.remove(old(self).overlay_start - 1)
            },
    {
        if self.overlay_start > 0 {
            self.overlay_start = self.overlay_start - 1;
            proof {
                self.tags@ = self.tags@.remove(self.overlay_start as int);
            }
            Some(self.layers.remove(self.overlay_start))
        } else {
            None
        }
    }

    /// Append an overlay at the very end; the boundary does not move.
    pub fn push_overlay(&mut self, overlay: L)
        requires
            old(self).wf(),
        ensures
            final(self).wf(),
            final(self).layers@ == old(self).layers@.push(overlay),
            final(self).overlay_start == old(self).overlay_start,
            final(self).tags@ == old(self).tags@.push(true),
    {
        self.layers.push(overlay);
        proof {
            self.tags@ = self.tags@.push(true);
        }
    }

    /// Remove and return the most recently pushed overlay, or `None` if no
    /// overlay is left. Ownership moves back to the caller, who is
    /// responsible for invoking `on_detach` before dropping the overlay.
    pub fn pop_overlay(&mut self) -> (r: Option<L>)
        requires
            old(self).wf(),
        ensures
            final(self).wf(),
            old(self).layers@.len() == old(self).overlay_start ==> r is None && *final(self)
                == *old(self),
            old(self).layers@.len() > old(self).overlay_start ==> {
                &&& r == Some(old(self).layers@.last())
                &&& final(self).layers@ == old(self).layers@.drop_last()
                &&& final(self).overlay_start == old(self).overlay_start
                &&& final(self).tags@ == old(self).tags@.drop_last()
            },
    {
        if self.layers.len() > self.overlay_start {
            proof {
                self.tags@ = self.tags@.drop_last();
            }
            self.layers.pop()
        } else {
            None
        }
    }
}

impl<L: Layer> LayerStack<L> {
    /// Give every layer its per-frame update, front to back. The returned
    /// ghost sequence is the visit order: the slot indices, strictly
    /// ascending from zero.
    pub fn update_all(&mut self, events: &mut Vec<Event>) -> (order: Ghost<Seq<int>>)
        requires
            old(self).wf(),
        ensures
            final(self).wf(),
            final(self).layers@.len() == old(self).layers@.len(),
            final(self).overlay_start == old(self).overlay_start,
            final(self).tags@ == old(self).tags@,
            order@.len() == old(self).layers@.len(),
            forall|k: int| 0 <= k < order@.len() ==> order@[k] == k,
    {
        let ghost mut order: Seq<int> = Seq::empty();
        let len = self.layers.len();
        let mut i: usize = 0;
        while i < len
            invariant
                i <= len,
                len == self.layers@.len(),
                self.overlay_start == old(self).overlay_start,
                self.tags@ == old(self).tags@,
                self.wf(),
                order.len() == i,
                forall|k: int| 0 <= k < order.len() ==> order[k] == k,
            decreases len - i,
        {
            let layer = &mut self.layers[i];
            layer.on_update(events);
            proof {
                order = order.push(i as int);
            }
            i = i + 1;
        }
        Ghost(order)
    }

    /// Offer one event to each layer, back to front, stopping as soon as the
    /// event is handled after a call. The returned ghost sequence is the
    /// visit order: slot indices strictly descending from the top, and a
    /// visit order shorter than the stack means the last visited layer
    /// consumed the event, so no layer below it saw the event.
    pub fn propagate(&mut self, event: &mut Event) -> (visited: Ghost<Seq<int>>)
        requires
            old(self).wf(),
        ensures
            final(self).wf(),
            final(self).layers@.len() == old(self).layers@.len(),
            final(self).overlay_start == old(self).overlay_start,
            final(self).tags@ == old(self).tags@,
            visited@.len() <= old(self).layers@.len(),
            forall|k: int|
                0 <= k < visited@.len() ==> visited@[k] == old(self).layers@.len() - 1 - k,
            visited@.len() < old(self).layers@.len() ==> spec_handled(*final(event)),
            !spec_handled(*final(event)) ==> visited@.len() == old(self).layers@.len(),
            visited@.len() == 0 ==> *final(event) == *old(event),
            old(self).layers@.len() > 0 ==> visited@.len() > 0,
    {
        let ghost mut visited: Seq<int> = Seq::empty();
        let len = self.layers.len();
        let mut i: usize = len;
        while i > 0
            invariant
                i <= len,
                len == self.layers@.len(),
                self.overlay_start == old(self).overlay_start,
                self.tags@ == old(self).tags@,
                self.wf(),
                visited.len() == len - i,
                forall|k: int| 0 <= k < visited.len() ==> visited[k] == len - 1 - k,
                visited.len() == 0 ==> *event == *old(event),
            ensures
                i <= len,
                len == self.layers@.len(),
                self.overlay_start == old(self).overlay_start,
                self.tags@ == old(self).tags@,
                self.wf(),
                visited.len() == len - i,
                forall|k: int| 0 <= k < visited.len() ==> visited[k] == len - 1 - k,
                i == 0 || spec_handled(*event),
                len == 0 || i < len,
                visited.len() == 0 ==> *event == *old(event),
            decreases i,
        {
            i = i - 1;
            let layer = &mut self.layers[i];
            layer.on_event(event);
            proof {
                visited = visited.push(i as int);
            }
            if event.handled() {
                break ;
            }
        }
        Ghost(visited)
    }

    /// Detach every remaining layer, overlays first and back to front in each
    /// region, and leave the stack empty. Layer teardown is the stack's
    /// obligation: a layer still present when the stack is torn down must
    /// still see its `on_detach`.
    pub fn detach_all(&mut self)
        requires
            old(self).wf(),
        ensures
            final(self).wf(),
            final(self).layers@.len() == 0,
            final(self).overlay_start == 0,
    {
        while self.layers.len() > self.overlay_start
            invariant
                self.wf(),
            decreases self.layers@.len(),
        {
            let popped = self.pop_overlay();
            if let Some(mut overlay) = popped {
                overlay.on_detach();
            }
        }
        while self.overlay_start > 0
            invariant
                self.wf(),
                self.layers@.len() == self.overlay_start,
            decreases self.overlay_start,
        {
            let popped = self.pop_layer();
            if let Some(mut layer) = popped {
                layer.on_detach();
            }
        }
    }
}

/// In a well-formed stack every slot pushed as a plain layer stands before
/// every slot pushed as an overlay, whatever order the pushes and pops came
/// in.
pub proof fn lemma_layers_precede_overlays<L>(s: &LayerStack<L>, i: int, j: int)
    requires
        s.wf(),
        0 <= i < s.tags@.len(),
        0 <= j < s.tags@.len(),
        !s.tags@[i],
        s.tags@[j],
    ensures
        i < j,
{
}

} // verus!
