//! The builder that collects plugin registrations before the run loop starts.
use vstd::prelude::*;

use crate::plugins::{Plugin, Variant, TargetOs, plugin_list, spec_plugin_list, lemma_plugin_list_distinct};

verus! {

/// `s` after registering `p`: a plugin is attached at most once, so one that
/// is already there leaves the list as it is.
pub open spec fn spec_register(s: Seq<Plugin>, p: Plugin) -> Seq<Plugin> {
    if s.contains(p) {
        s
    } else {
        s.push(p)
    }
}

/// `s` after registering each plugin of `ps` in turn.
pub open spec fn spec_register_all(s: Seq<Plugin>, ps: Seq<Plugin>) -> Seq<Plugin>
    decreases ps.len(),
{
    if ps.len() == 0 {
        s
    } else {
        spec_register(spec_register_all(s, ps.drop_last()), ps.last())
    }
}

/// Collects plugin registrations; each plugin is held at most once, in the
/// order of its first registration.
pub struct AppBuilder {
    plugins: Vec<Plugin>,
}

impl View for AppBuilder {
    type V = Seq<Plugin>;

    closed spec fn view(&self) -> Seq<Plugin> {
        self.plugins@
    }
}

impl AppBuilder {
    pub closed spec fn wf(&self) -> bool {
        self.plugins@.no_duplicates()
    }

    /// A builder with nothing registered.
    pub fn new() -> (r: AppBuilder)
        ensures
            r.wf(),
            r@ == Seq::<Plugin>::empty(),
    {
        AppBuilder { plugins: Vec::new() }
    }

    /// Whether `p` is registered.
    pub fn has(&self, p: Plugin) -> (r: bool)
        ensures
            r == self@.contains(p),
    {
        let mut i: usize = 0;
        while i < self.plugins.len()
            invariant
                0 <= i <= self.plugins@.len(),
                forall|k: int| 0 <= k < i ==> self.plugins@[k] != p,
            decreases self.plugins@.len() - i,
        {
            if self.plugins[i] == p {
                return true;
            }
            i = i + 1;
        }
        false
    }

    /// Registers `p`; returns whether it was not registered before.
    pub fn plugin(&mut self, p: Plugin) -> (added: bool)
        requires
            old(self).wf(),
        ensures
            final(self).wf(),
            final(self)@ == spec_register(old(self)@, p),
            added == !old(self)@.contains(p),
    {
        if self.has(p) {
            false
        } else {
            self.plugins.push(p);
            true
        }
    }

    /// Registers each plugin of `ps` in turn.
    pub fn plugins_from(&mut self, ps: &Vec<Plugin>)
        requires
            old(self).wf(),
        ensures
            final(self).wf(),
            final(self)@ == spec_register_all(old(self)@, ps@),
    {
        let ghost start = self@;
        let mut i: usize = 0;
        while i < ps.len()
            invariant
                0 <= i <= ps@.len(),
                self.wf(),
                self@ == spec_register_all(start, ps@.take(i as int)),
            decreases ps@.len() - i,
        {
            assert(ps@.take(i + 1).drop_last() =~= ps@.take(i as int));
            self.plugin(ps[i]);
            i = i + 1;
        }
        assert(ps@.take(i as int) =~= ps@);
    }

    /// A builder holding the registration list of `variant` on `target`.
    pub fn for_target(variant: Variant, target: TargetOs) -> (r: AppBuilder)
        ensures
            r.wf(),
            r@ == spec_plugin_list(variant, target),
    {
        let mut b = AppBuilder::new();
        let list = plugin_list(variant, target);
        b.plugins_from(&list);
        proof {
            lemma_plugin_list_distinct(variant, target);
            lemma_register_all_distinct(Seq::empty(), list@);
            assert(Seq::<Plugin>::empty() + list@ =~= list@);
        }
        b
    }

    /// The registered plugins, in order.
    pub fn registered(&self) -> (r: Vec<Plugin>)
        ensures
            r@ == self@,
    {
        self.plugins.clone()
    }

    /// The number of registered plugins.
    pub fn len(&self) -> (r: usize)
        ensures
            r == self@.len(),
    {
        self.plugins.len()
    }
}

/// Registering plugins that are all new, and distinct, appends them in order.
pub proof fn lemma_register_all_distinct(s: Seq<Plugin>, ps: Seq<Plugin>)
    requires
        (s + ps).no_duplicates(),
    ensures
        spec_register_all(s, ps) == s + ps,
    decreases ps.len(),
{
    if ps.len() > 0 {
        let init = ps.drop_last();
        assert((s + init) =~= (s + ps).drop_last());
        assert((s + ps).drop_last().no_duplicates());
        lemma_register_all_distinct(s, init);
        assert(!(s + init).contains(ps.last())) by {
            if (s + init).contains(ps.last()) {
                let k = choose|k: int| 0 <= k < (s + init).len() && (s + init)[k] == ps.last();
                assert((s + ps)[k] == (s + ps)[(s + ps).len() - 1]);
            }
        }
        assert((s + init).push(ps.last()) =~= s + ps);
    }
}

/// The plugins available after registering `ps` on `s` are those of `s` and
/// those of `ps`.
pub proof fn lemma_register_all_set(s: Seq<Plugin>, ps: Seq<Plugin>)
    ensures
        spec_register_all(s, ps).to_set() == s.to_set().union(ps.to_set()),
    decreases ps.len(),
{
    if ps.len() == 0 {
        assert(s.to_set().union(ps.to_set()) =~= s.to_set());
    } else {
        let init = ps.drop_last();
        lemma_register_all_set(s, init);
        let r = spec_register_all(s, init);
        let x = ps.last();
        assert forall|q: Plugin| #[trigger] ps.contains(q) <==> init.contains(q) || q == x by {
            if ps.contains(q) && q != x {
                let k = choose|k: int| 0 <= k < ps.len() && ps[k] == q;
                assert(init[k] == q);
            }
            if init.contains(q) {
                let k = choose|k: int| 0 <= k < init.len() && init[k] == q;
                assert(ps[k] == q);
            }
            if q == x {
                assert(ps[ps.len() - 1] == q);
            }
        }
        assert forall|q: Plugin| #[trigger] r.push(x).contains(q) <==> r.contains(q) || q == x by {
            if r.push(x).contains(q) && q != x {
                let k = choose|k: int| 0 <= k < r.push(x).len() && r.push(x)[k] == q;
                assert(r[k] == q);
            }
            if r.contains(q) {
                let k = choose|k: int| 0 <= k < r.len() && r[k] == q;
                assert(r.push(x)[k] == q);
            }
            if q == x {
                assert(r.push(x)[r.len() as int] == q);
            }
        }
        assert forall|q: Plugin| #[trigger] spec_register_all(s, ps).to_set().contains(q)
            <==> s.to_set().union(ps.to_set()).contains(q) by {
            assert(r.to_set().contains(q) <==> r.contains(q));
            assert(s.to_set().union(init.to_set()).contains(q) <==> s.contains(q) || init.contains(q));
        }
        assert(spec_register_all(s, ps).to_set() =~= s.to_set().union(ps.to_set()));
    }
}

/// Registration is never affected by order: registering two lists that hold
/// the same plugins, in any order and with any repetitions, makes the same
/// plugins available.
pub proof fn lemma_registration_order_irrelevant(a: Seq<Plugin>, b: Seq<Plugin>)
    requires
        a.to_set() == b.to_set(),
    ensures
        spec_register_all(Seq::empty(), a).to_set() == spec_register_all(Seq::empty(), b).to_set(),
{
    lemma_register_all_set(Seq::empty(), a);
    lemma_register_all_set(Seq::empty(), b);
}

} // verus!
