//! Layers and the ordered layer stack.
//!
//! A layer combines the event capability with lifecycle hooks; the stack
//! keeps layers in one ordered sequence split by `overlay_offset` into a
//! "layers" region (indices below the split) and an "overlays" region
//! (indices at and above it).  The bound `0 <= overlay_offset <= length`
//! holds after every operation.

use vstd::prelude::*;

use crate::dispatch::GenericEventListener;
use crate::event::Event;

verus! {

/// A pluggable unit of the engine: lifecycle hooks tied to stack membership
/// plus one event entry point.
///
/// `attached` is the layer's lifecycle flag: `on_attach` establishes it,
/// `on_detach` clears it, and a layer is offered events and updates only
/// while attached.
pub trait Layer {
    /// Whether the layer is currently attached to a stack.
    spec fn attached(&self) -> bool;

    /// A ghost count of the events this layer has been offered.  Every
    /// delivery raises it by one (it stays put once it can no longer grow),
    /// so a contract can force that a layer really received — or never
    /// received — an event.
    spec fn seen_count(&self) -> u64;

    /// A process-unique name used for diagnostics only.
    fn get_dbg_name(&self) -> (r: &'static str);

    /// Resource setup tied to stack membership; called exactly once on push.
    fn on_attach(&mut self)
        ensures
            final(self).attached(),
    ;

    /// Resource teardown tied to stack membership; called exactly once on
    /// pop, after `on_attach`.
    fn on_detach(&mut self)
        requires
            old(self).attached(),
        ensures
            !final(self).attached(),
    ;

    /// Per-frame work; a no-op unless the layer overrides it.
    fn on_update(&mut self)
        requires
            old(self).attached(),
        ensures
            final(self).attached(),
    {
    }

    /// Offers one event to the layer; the result reports whether the layer
    /// consumed it.  Every implementation records the offer in its ghost
    /// count; one that routes events to the per-kind capability does so with
    /// [`propagate_event`](crate::dispatch::propagate_event).
    fn on_event(&mut self, event: Event) -> (r: bool)
        requires
            old(self).attached(),
        ensures
            final(self).attached(),
            offered_once(old(self).seen_count(), final(self).seen_count()),
    ;
}

/// How one observation moves a ghost counter: up by one until it can no
/// longer grow.
pub open spec fn offered_once(pre: u64, post: u64) -> bool {
    if pre < u64::MAX {
        post == pre + 1
    } else {
        post == u64::MAX
    }
}

/// One dispatch pass moved the stored layers `pre` to `post` by offering the
/// event to exactly the top `offered` layers: each of those was offered it
/// once, and every layer below is untouched.
pub open spec fn offered_top_segment<L: Layer>(pre: Seq<L>, post: Seq<L>, offered: int) -> bool {
    &&& 0 <= offered <= pre.len()
    &&& post.len() == pre.len()
    &&& forall|i: int| 0 <= i < pre.len() - offered ==> post[i] == pre[i]
    &&& forall|i: int|
        pre.len() - offered <= i < pre.len() ==> offered_once(
            (#[trigger] pre[i]).seen_count(),
            post[i].seen_count(),
        )
}

/// An owned polymorphic layer handle: the element the engine's stack holds,
/// so layers of different concrete types can stand in one stack.  The handle
/// is itself a layer and forwards everything to the layer it owns.
pub struct LayerHandle(pub Box<dyn Layer>);

impl Layer for LayerHandle {
    open spec fn attached(&self) -> bool {
        (*self.0).attached()
    }

    open spec fn seen_count(&self) -> u64 {
        (*self.0).seen_count()
    }

    fn get_dbg_name(&self) -> (r: &'static str) {
        (*self.0).get_dbg_name()
    }

    fn on_attach(&mut self) {
        (*self.0).on_attach()
    }

    fn on_detach(&mut self) {
        (*self.0).on_detach()
    }

    fn on_update(&mut self) {
        (*self.0).on_update()
    }

    fn on_event(&mut self, event: Event) -> (r: bool) {
        (*self.0).on_event(event)
    }
}

/// The ordered collection of layers, generic in the layer representation;
/// the engine instantiates it with owned polymorphic handles.
///
/// The stack hands out no mutable walk over its layers: unchecked mutation
/// could detach a stored layer behind the stack's back.  Mutating access
/// goes through `dispatch_event` and the pops, which keep every stored
/// layer attached.
pub struct LayerStackImpl<L: Layer> {
    layers: Vec<L>,
    overlay_offset: usize,
}

impl<L: Layer> LayerStackImpl<L> {
    /// The layers in storage order: the "layers" region first, then the
    /// "overlays" region.
    pub closed spec fn layer_seq(&self) -> Seq<L> {
        self.layers@
    }

    /// The split index: layers live at indices below it, overlays at or
    /// above it.
    pub closed spec fn overlay_split(&self) -> int {
        self.overlay_offset as int
    }

    /// The region split always stays inside the sequence.
    pub open spec fn stack_wf(&self) -> bool {
        0 <= self.overlay_split() <= self.layer_seq().len()
    }

    /// Every stored layer is attached; event dispatch relies on it and every
    /// operation preserves it.
    pub open spec fn all_attached(&self) -> bool {
        forall|i: int|
            0 <= i < self.layer_seq().len() ==> (#[trigger] self.layer_seq()[i]).attached()
    }

    pub fn new() -> (r: LayerStackImpl<L>)
        ensures
            r.stack_wf(),
            r.all_attached(),
            r.layer_seq().len() == 0,
            r.overlay_split() == 0,
    {
        LayerStackImpl { layers: Vec::new(), overlay_offset: 0 }
    }

    /// A read-only walk over the layers in storage order.
    pub fn iter(&self) -> (r: &Vec<L>)
        ensures
            r@ == self.layer_seq(),
    {
        &self.layers
    }

    /// The number of layers in both regions together.
    pub fn len(&self) -> (r: usize)
        ensures
            r == self.layer_seq().len(),
    {
        self.layers.len()
    }

    /// The current split index.
    pub fn overlay_offset(&self) -> (r: usize)
        ensures
            r == self.overlay_split(),
    {
        self.overlay_offset
    }

    /// Inserts a layer at the top of the "layers" region, which makes it the
    /// most recently pushed layer of that region.
    pub fn push_layer(&mut self, layer: L)
        requires
            old(self).stack_wf(),
        ensures
            final(self).stack_wf(),
            final(self).layer_seq() == old(self).layer_seq().insert(
                old(self).overlay_split(),
                layer,
            ),
            final(self).overlay_split() == old(self).overlay_split() + 1,
            old(self).all_attached() && layer.attached() ==> final(self).all_attached(),
    {
        self.layers.insert(self.overlay_offset, layer);
        let n = self.layers.len();
        proof {
            assert(self.overlay_offset < n);
        }
        self.overlay_offset = self.overlay_offset + 1;
        proof {
            if old(self).all_attached() && layer.attached() {
                old(self).layer_seq().insert_ensures(old(self).overlay_split(), layer);
                assert forall|i: int|
                    0 <= i < self.layer_seq().len() implies (
                #[trigger] self.layer_seq()[i]).attached() by {
                    let at = old(self).overlay_split();
                    if i < at {
                        assert(self.layer_seq()[i] == old(self).layer_seq()[i]);
                    } else if i == at {
                        assert(self.layer_seq()[i] == layer);
                    } else {
                        assert(self.layer_seq()[i] == old(self).layer_seq()[i - 1]);
                    }
                }
            }
        }
    }

    /// Appends an overlay at the end, the top of the "overlays" region.
    pub fn push_overlay(&mut self, overlay: L)
        requires
            old(self).stack_wf(),
        ensures
            final(self).stack_wf(),
            final(self).layer_seq() == old(self).layer_seq().push(overlay),
            final(self).overlay_split() == old(self).overlay_split(),
            old(self).all_attached() && overlay.attached() ==> final(self).all_attached(),
    {
        self.layers.push(overlay);
    }

    /// Removes and returns the most recently pushed layer of the "layers"
    /// region; an empty region yields a defined empty result and alters
    /// nothing.
    pub fn pop_layer(&mut self) -> (r: Option<L>)
        requires
            old(self).stack_wf(),
        ensures
            final(self).stack_wf(),
            old(self).overlay_split() == 0 ==> r is None
                && final(self).layer_seq() == old(self).layer_seq()
                && final(self).overlay_split() == 0,
            old(self).overlay_split() > 0 ==> {
                &&& r == Some(old(self).layer_seq()[old(self).overlay_split() - 1])
                &&& final(self).layer_seq() == old(self).layer_seq().remove(
                    old(self).overlay_split() - 1,
                )
                &&& final(self).overlay_split() == old(self).overlay_split() - 1
            },
            old(self).all_attached() ==> final(self).all_attached(),
            old(self).all_attached() && r is Some ==> r.unwrap().attached(),
    {
        if self.overlay_offset > 0 {
            self.overlay_offset = self.overlay_offset - 1;
            let layer = self.layers.remove(self.overlay_offset);
            proof {
                if old(self).all_attached() {
                    old(self).layer_seq().remove_ensures(old(self).overlay_split() - 1);
                    assert forall|i: int|
                        0 <= i < self.layer_seq().len() implies (
                    #[trigger] self.layer_seq()[i]).attached() by {
                        let at = old(self).overlay_split() - 1;
                        if i < at {
                            assert(self.layer_seq()[i] == old(self).layer_seq()[i]);
                        } else {
                            assert(self.layer_seq()[i] == old(self).layer_seq()[i + 1]);
                        }
                    }
                }
            }
            Some(layer)
        } else {
            None
        }
    }

    /// Removes and returns the most recently pushed overlay; an empty
    /// "overlays" region yields a defined empty result and alters nothing.
    pub fn pop_overlay(&mut self) -> (r: Option<L>)
        requires
            old(self).stack_wf(),
        ensures
            final(self).stack_wf(),
            old(self).layer_seq().len() == old(self).overlay_split() ==> r is None
                && final(self).layer_seq() == old(self).layer_seq()
                && final(self).overlay_split() == old(self).overlay_split(),
            old(self).layer_seq().len() > old(self).overlay_split() ==> {
                &&& r == Some(old(self).layer_seq().last())
                &&& final(self).layer_seq() == old(self).layer_seq().drop_last()
                &&& final(self).overlay_split() == old(self).overlay_split()
            },
            old(self).all_attached() ==> final(self).all_attached(),
            old(self).all_attached() && r is Some ==> r.unwrap().attached(),
    {
        if self.layers.len() > self.overlay_offset {
            let r = self.layers.pop();
            proof {
                if old(self).all_attached() {
                    assert forall|i: int|
                        0 <= i < self.layer_seq().len() implies (
                    #[trigger] self.layer_seq()[i]).attached() by {
                        assert(self.layer_seq()[i] == old(self).layer_seq()[i]);
                    }
                }
            }
            r
        } else {
            None
        }
    }

    /// Offers one event to each layer in most-recent-first order — the
    /// overlays from the top down, then the layers from the top down — and
    /// stops at the first layer that consumes it.
    ///
    /// The returned ghost trace holds the consumed-flags in the order the
    /// layers were offered the event: every entry but possibly the last is
    /// `false`, the result is the last entry, and when no layer consumes the
    /// event every layer was offered it.  The trace covers exactly the top
    /// of the stack: each of the last `trace.len()` layers was offered the
    /// event once (its ghost offer-count rose), and every layer below — in
    /// particular every layer below the consumer — never received it and is
    /// untouched.
    pub fn dispatch_event(&mut self, event: Event) -> (r: (bool, Ghost<Seq<bool>>))
        requires
            old(self).stack_wf(),
            old(self).all_attached(),
        ensures
            final(self).stack_wf(),
            final(self).all_attached(),
            final(self).layer_seq().len() == old(self).layer_seq().len(),
            final(self).overlay_split() == old(self).overlay_split(),
            r.1@.len() <= old(self).layer_seq().len(),
            r.0 == (r.1@.len() > 0 && r.1@.last()),
            forall|j: int| 0 <= j < r.1@.len() - 1 ==> !r.1@[j],
            !r.0 ==> r.1@.len() == old(self).layer_seq().len(),
            forall|i: int|
                0 <= i < old(self).layer_seq().len() - r.1@.len() ==> final(self).layer_seq()[i]
                    == old(self).layer_seq()[i],
            forall|i: int|
                old(self).layer_seq().len() - r.1@.len() <= i < old(self).layer_seq().len()
                    ==> offered_once(
                    (#[trigger] old(self).layer_seq()[i]).seen_count(),
                    final(self).layer_seq()[i].seen_count(),
                ),
    {
        let ghost n = self.layers@.len() as int;
        let mut results: Ghost<Seq<bool>> = Ghost(Seq::empty());
        let mut i: usize = self.layers.len();
        while i > 0
            invariant
                n == old(self).layer_seq().len(),
                i <= self.layers@.len(),
                self.layers@.len() == old(self).layer_seq().len(),
                self.overlay_offset == old(self).overlay_split(),
                self.stack_wf(),
                self.all_attached(),
                results@.len() == n - i,
                forall|j: int| 0 <= j < results@.len() ==> !results@[j],
                forall|k: int| 0 <= k < i ==> self.layers@[k] == old(self).layer_seq()[k],
                forall|k: int|
                    i <= k < n ==> offered_once(
                        (#[trigger] old(self).layer_seq()[k]).seen_count(),
                        self.layers@[k].seen_count(),
                    ),
            decreases i,
        {
            i = i - 1;
            let layer: &mut L = &mut self.layers[i];
            let consumed = layer.on_event(event);
            proof {
                results@ = results@.push(consumed);
            }
            if consumed {
                return (true, results);
            }
        }
        (false, results)
    }

    /// Detaches and discards every layer: the overlays from the top down,
    /// then the layers from the top down — the exact reverse of attach order
    /// within each region, overlays before layers.
    ///
    /// The returned ghost trace holds the layers in the order they were
    /// detached, each exactly once: the reverse of the overlay region
    /// followed by the reverse of the layer region.
    pub fn detach_all(&mut self) -> (detached: Ghost<Seq<L>>)
        requires
            old(self).stack_wf(),
            old(self).all_attached(),
        ensures
            final(self).stack_wf(),
            final(self).all_attached(),
            final(self).layer_seq().len() == 0,
            final(self).overlay_split() == 0,
            detached@ == teardown_order(old(self).layer_seq(), old(self).overlay_split()),
    {
        let ghost seq0 = self.layer_seq();
        let ghost split0 = self.overlay_split();
        let mut detached: Ghost<Seq<L>> = Ghost(Seq::empty());

        while self.layers.len() > self.overlay_offset
            invariant
                self.stack_wf(),
                self.all_attached(),
                self.overlay_split() == split0,
                self.layer_seq().len() >= split0,
                self.layer_seq() == seq0.take(self.layer_seq().len() as int),
                detached@.len() == seq0.len() - self.layer_seq().len(),
                forall|j: int|
                    0 <= j < detached@.len() ==> detached@[j] == seq0[seq0.len() - 1 - j],
            decreases self.layers@.len(),
        {
            let ghost top = self.layer_seq().last();
            let mut overlay = self.pop_overlay().unwrap();
            overlay.on_detach();
            proof {
                detached@ = detached@.push(top);
            }
        }

        while self.overlay_offset > 0
            invariant
                self.stack_wf(),
                self.all_attached(),
                self.layer_seq().len() == self.overlay_split(),
                self.layer_seq() == seq0.take(self.layer_seq().len() as int),
                self.layer_seq().len() <= split0,
                detached@.len() == seq0.len() - self.layer_seq().len(),
                forall|j: int|
                    0 <= j < detached@.len() ==> detached@[j] == seq0[seq0.len() - 1 - j],
            decreases self.overlay_offset,
        {
            let ghost top = self.layer_seq().last();
            let mut layer = self.pop_layer().unwrap();
            layer.on_detach();
            proof {
                detached@ = detached@.push(top);
            }
        }

        proof {
            let order = teardown_order(seq0, split0);
            lemma_teardown_order_index(seq0, split0);
            assert(detached@.len() == order.len());
            assert forall|j: int| 0 <= j < detached@.len() implies detached@[j] == order[j] by {
                assert(detached@[j] == seq0[seq0.len() - 1 - j]);
            }
            assert(detached@ =~= order);
        }
        detached
    }
}

/// A whole stack listens as one unit: offering it an event dispatches the
/// event through the layers, most recent first.
impl<L: Layer> GenericEventListener for LayerStackImpl<L> {
    open spec fn listening(&self) -> bool {
        self.stack_wf() && self.all_attached()
    }

    /// Dispatches as `dispatch_event` does: some top segment of the stack
    /// was offered the event, a consumed result means the segment is not
    /// empty, an unconsumed one that every layer was offered it, and the
    /// layers below the segment never received it.
    fn on_event(&mut self, event: Event) -> (r: bool)
        ensures
            final(self).layer_seq().len() == old(self).layer_seq().len(),
            final(self).overlay_split() == old(self).overlay_split(),
            exists|offered: int|
                {
                    &&& #[trigger] offered_top_segment(
                        old(self).layer_seq(),
                        final(self).layer_seq(),
                        offered,
                    )
                    &&& (r ==> offered >= 1)
                    &&& (!r ==> offered == old(self).layer_seq().len())
                },
    {
        let (consumed, trace) = self.dispatch_event(event);
        proof {
            let offered = trace@.len() as int;
            assert(offered_top_segment(old(self).layer_seq(), self.layer_seq(), offered));
        }
        consumed
    }
}

/// The order in which teardown detaches the layers of a stack whose stored
/// sequence is `layers` and whose split is `split`: the overlays in reverse
/// push order, then the layers in reverse push order.
pub open spec fn teardown_order<L>(layers: Seq<L>, split: int) -> Seq<L>
    recommends
        0 <= split <= layers.len(),
{
    layers.skip(split).reverse() + layers.take(split).reverse()
}

/// Teardown order is the whole stack read backwards: detaching the overlays
/// in reverse order and then the layers in reverse order visits every stored
/// layer exactly once, from the last stored to the first.
pub proof fn lemma_teardown_order_index<L>(layers: Seq<L>, split: int)
    requires
        0 <= split <= layers.len(),
    ensures
        teardown_order(layers, split).len() == layers.len(),
        forall|j: int|
            0 <= j < layers.len() ==> #[trigger] teardown_order(layers, split)[j] == layers[
                layers.len() - 1 - j
            ],
{
    let order = teardown_order(layers, split);
    let overs = layers.skip(split).reverse();
    let region = layers.take(split).reverse();
    assert(order.len() == layers.len());
    assert forall|j: int|
        0 <= j < layers.len() implies #[trigger] order[j] == layers[layers.len() - 1 - j] by {
        if j < overs.len() {
            assert(order[j] == overs[j]);
            assert(overs[j] == layers.skip(split)[layers.len() - split - 1 - j]);
            assert(layers.skip(split)[layers.len() - split - 1 - j] == layers[layers.len() - 1
                - j]);
        } else {
            assert(order[j] == region[j - overs.len()]);
            assert(region[j - overs.len()] == layers.take(split)[split - 1 - (j - overs.len())]);
            assert(layers.take(split)[layers.len() - 1 - j] == layers[layers.len() - 1 - j]);
        }
    }
}

/// The attach-and-stack interface of §"Layer Stack" semantics: pushing a
/// layer attaches it and places it, popping removes and detaches.  The model
/// is the owner's stored layer sequence and region split; `owner_inv` is the
/// owner's own well-formedness, which every operation preserves.  The bound
/// `0 <= overlay_split <= length` holds after every operation.
pub trait LayerStack {
    /// The stored layers: the "layers" region first, then the overlays.
    spec fn layer_seq(&self) -> Seq<LayerHandle>;

    /// The split index between the two regions.
    spec fn overlay_split(&self) -> int;

    /// The owner's well-formedness.
    spec fn owner_inv(&self) -> bool;

    /// Attaches the layer and inserts it at the top of the "layers" region.
    fn push_layer(&mut self, layer: LayerHandle)
        requires
            old(self).owner_inv(),
        ensures
            final(self).owner_inv(),
            0 <= final(self).overlay_split() <= final(self).layer_seq().len(),
            final(self).layer_seq().len() == old(self).layer_seq().len() + 1,
            final(self).overlay_split() == old(self).overlay_split() + 1,
            final(self).layer_seq()[old(self).overlay_split()].attached(),
            forall|i: int|
                0 <= i < old(self).overlay_split()
                    ==> final(self).layer_seq()[i] == old(self).layer_seq()[i],
            forall|i: int|
                old(self).overlay_split() < i <= old(self).layer_seq().len()
                    ==> final(self).layer_seq()[i] == old(self).layer_seq()[i - 1],
    ;

    /// Attaches the overlay and appends it at the end.
    fn push_overlay(&mut self, overlay: LayerHandle)
        requires
            old(self).owner_inv(),
        ensures
            final(self).owner_inv(),
            0 <= final(self).overlay_split() <= final(self).layer_seq().len(),
            final(self).layer_seq().len() == old(self).layer_seq().len() + 1,
            final(self).overlay_split() == old(self).overlay_split(),
            final(self).layer_seq().last().attached(),
            forall|i: int|
                0 <= i < old(self).layer_seq().len()
                    ==> final(self).layer_seq()[i] == old(self).layer_seq()[i],
    ;

    /// Removes, detaches and returns the most recently pushed layer of the
    /// "layers" region; an empty region yields a defined empty result and
    /// alters nothing.
    fn pop_layer(&mut self) -> (r: Option<LayerHandle>)
        requires
            old(self).owner_inv(),
        ensures
            final(self).owner_inv(),
            0 <= final(self).overlay_split() <= final(self).layer_seq().len(),
            old(self).overlay_split() == 0 ==> r is None
                && final(self).layer_seq() == old(self).layer_seq()
                && final(self).overlay_split() == 0,
            old(self).overlay_split() > 0 ==> {
                &&& r is Some
                &&& !r.unwrap().attached()
                &&& final(self).layer_seq() == old(self).layer_seq().remove(
                    old(self).overlay_split() - 1,
                )
                &&& final(self).overlay_split() == old(self).overlay_split() - 1
            },
    ;

    /// Removes, detaches and returns the most recently pushed overlay; an
    /// empty "overlays" region yields a defined empty result and alters
    /// nothing.
    fn pop_overlay(&mut self) -> (r: Option<LayerHandle>)
        requires
            old(self).owner_inv(),
        ensures
            final(self).owner_inv(),
            0 <= final(self).overlay_split() <= final(self).layer_seq().len(),
            old(self).layer_seq().len() == old(self).overlay_split() ==> r is None
                && final(self).layer_seq() == old(self).layer_seq()
                && final(self).overlay_split() == old(self).overlay_split(),
            old(self).layer_seq().len() > old(self).overlay_split() ==> {
                &&& r is Some
                &&& !r.unwrap().attached()
                &&& final(self).layer_seq() == old(self).layer_seq().drop_last()
                &&& final(self).overlay_split() == old(self).overlay_split()
            },
    ;
}

/// The pointwise reading of inserting into a layer sequence.
pub proof fn lemma_insert_facts<L>(pre: Seq<L>, at: int, l: L)
    requires
        0 <= at <= pre.len(),
    ensures
        pre.insert(at, l).len() == pre.len() + 1,
        pre.insert(at, l)[at] == l,
        forall|i: int| 0 <= i < at ==> #[trigger] pre.insert(at, l)[i] == pre[i],
        forall|i: int| at < i <= pre.len() ==> #[trigger] pre.insert(at, l)[i] == pre[i - 1],
{
    pre.insert_ensures(at, l);
    assert forall|i: int| at < i <= pre.len() implies #[trigger] pre.insert(at, l)[i] == pre[i
        - 1] by {
        assert(pre.insert(at, l)[i - 1 + 1] == pre[i - 1]);
    }
}

/// The pointwise reading of appending to a layer sequence.
pub proof fn lemma_append_facts<L>(pre: Seq<L>, l: L)
    ensures
        pre.push(l).len() == pre.len() + 1,
        pre.push(l)[pre.len() as int] == l,
        pre.push(l).last() == l,
        forall|i: int| 0 <= i < pre.len() ==> #[trigger] pre.push(l)[i] == pre[i],
{
}

/// The length of a layer sequence with one element removed.
pub proof fn lemma_remove_facts<L>(pre: Seq<L>, at: int)
    requires
        0 <= at < pre.len(),
    ensures
        pre.remove(at).len() == pre.len() - 1,
{
    pre.remove_ensures(at);
}

/// The length of a layer sequence without its last element.
pub proof fn lemma_drop_last_facts<L>(pre: Seq<L>)
    requires
        pre.len() > 0,
    ensures
        pre.drop_last().len() == pre.len() - 1,
{
}

} // verus!
