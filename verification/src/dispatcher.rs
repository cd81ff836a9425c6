//! Routing updates to subscribed handlers.
//!
//! Handlers live outside the library (they are arbitrary closures doing
//! arbitrary work), so they are registered under caller-chosen ids.  The
//! dispatcher decides, for one update, which handler ids run and in which
//! order: every handler subscribed to the update's kind, in registration
//! order.  The routing never depends on what any handler did before, so an
//! error raised by one handler cannot suppress a later one: the caller runs
//! the returned ids one by one, catching each handler's error.

use vstd::prelude::*;

verus! {

/// The closed set of update kinds.
#[derive(Clone, Copy, PartialEq, Eq, Structural, Debug)]
pub enum UpdateKind {
    Message,
    EditedMessage,
    ChannelPost,
    EditedChannelPost,
    CallbackQuery,
    InlineQuery,
    ChosenInlineResult,
}

/// The handler ids subscribed to `kind`, in registration order.
pub open spec fn spec_route(subs: Seq<(UpdateKind, u64)>, kind: UpdateKind) -> Seq<u64>
    decreases subs,
{
    if subs.len() == 0 {
        Seq::empty()
    } else {
        let rest = spec_route(subs.drop_last(), kind);
        if subs.last().0 == kind {
            rest.push(subs.last().1)
        } else {
            rest
        }
    }
}

/// The update dispatcher: an ordered subscription list.
pub struct Dispatcher {
    pub subs: Vec<(UpdateKind, u64)>,
}

impl Dispatcher {
    /// No subscriptions yet.
    pub fn new() -> (r: Dispatcher)
        ensures
            r.subs@ == Seq::<(UpdateKind, u64)>::empty(),
    {
        Dispatcher { subs: Vec::new() }
    }

    /// Register one handler id for exactly one update kind.  Registration
    /// order is delivery order.
    pub fn subscribe(&mut self, kind: UpdateKind, handler: u64)
        ensures
            final(self).subs@ == old(self).subs@.push((kind, handler)),
    {
        self.subs.push((kind, handler));
    }

    /// Which handlers run for an update of this kind, in which order.
    pub fn route(&self, kind: UpdateKind) -> (r: Vec<u64>)
        ensures
            r@ == spec_route(self.subs@, kind),
    {
        let mut out: Vec<u64> = Vec::new();
        let mut i: usize = 0;
        proof {
            assert(self.subs@.take(0) =~= Seq::empty());
        }
        while i < self.subs.len()
            invariant
                i <= self.subs@.len(),
                out@ == spec_route(self.subs@.take(i as int), kind),
            decreases self.subs@.len() - i,
        {
            proof {
                assert(self.subs@.take(i as int + 1).drop_last() =~= self.subs@.take(i as int));
                assert(self.subs@.take(i as int + 1).last() == self.subs@[i as int]);
            }
            if self.subs[i].0 == kind {
                out.push(self.subs[i].1);
            }
            i = i + 1;
        }
        proof {
            assert(self.subs@.take(self.subs@.len() as int) =~= self.subs@);
        }
        out
    }
}

/// Routing only ever picks handlers of the asked-for kind, and keeps
/// registration order: the route is the subscription list filtered to the
/// kind, in place.
pub proof fn lemma_route_is_ordered_filter(subs: Seq<(UpdateKind, u64)>, kind: UpdateKind)
    ensures
        spec_route(subs, kind) == subs.filter(|p: (UpdateKind, u64)| p.0 == kind).map_values(
            |p: (UpdateKind, u64)| p.1,
        ),
    decreases subs,
{
    reveal(Seq::filter);
    if subs.len() > 0 {
        lemma_route_is_ordered_filter(subs.drop_last(), kind);
        let pred = |p: (UpdateKind, u64)| p.0 == kind;
        let pick = |p: (UpdateKind, u64)| p.1;
        if subs.last().0 == kind {
            assert(subs.drop_last().filter(pred).push(subs.last()).map_values(pick)
                =~= subs.drop_last().filter(pred).map_values(pick).push(subs.last().1));
        }
    }
}

/// Two handlers subscribed to the same kind are both routed, in their
/// registration order, whatever else is subscribed around them; and since
/// the route is fixed before any handler runs, an error in the first
/// cannot unseat the second.
pub proof fn lemma_both_handlers_routed(
    subs: Seq<(UpdateKind, u64)>,
    kind: UpdateKind,
    h1: u64,
    h2: u64,
)
    ensures
        spec_route(subs.push((kind, h1)).push((kind, h2)), kind) == spec_route(subs, kind).push(
            h1,
        ).push(h2),
{
    let one = subs.push((kind, h1));
    let two = one.push((kind, h2));
    assert(two.drop_last() =~= one);
    assert(one.drop_last() =~= subs);
    reveal_with_fuel(spec_route, 3);
    assert(spec_route(one, kind) == spec_route(subs, kind).push(h1));
    assert(spec_route(two, kind) == spec_route(one, kind).push(h2));
}

} // verus!
