//! Keys, per-region key-sequence bindings, and the resolver that turns key
//! presses into actions, holding a partial sequence until it completes.

use vstd::prelude::*;
use crate::action::Action;
use crate::focus::Focus;

verus! {

/// The key of a key press.
#[derive(Clone, Copy, Debug, PartialEq, Eq, Structural, Hash)]
pub enum KeyCode {
    Char(char),
    Left,
    Right,
    Up,
    Down,
    Enter,
    Esc,
    Tab,
    BackTab,
    Backspace,
    Delete,
    Home,
    End,
    PageUp,
    PageDown,
    F(u8),
    Null,
}

/// A key press: the key and its modifier bits (shift, control, alt, ...).
#[derive(Clone, Copy, Debug, PartialEq, Eq, Structural, Hash)]
pub struct Key {
    pub code: KeyCode,
    pub modifiers: u8,
}

impl Key {
    pub fn new(code: KeyCode, modifiers: u8) -> (r: Key)
        ensures
            r == (Key { code, modifiers }),
    {
        Key { code, modifiers }
    }
}

/// One binding: in `region`, the key sequence `keys` stands for `action`.
pub struct Binding {
    pub region: Focus,
    pub keys: Vec<Key>,
    pub action: Action,
}

/// The bindings of all regions, in order of precedence.
pub struct KeyBindings {
    pub bindings: Vec<Binding>,
}

/// Whether `b` binds the key sequence `seq` in `region`.
pub open spec fn binds(b: Binding, region: Focus, seq: Seq<Key>) -> bool {
    b.region == region && b.keys@ == seq
}

/// The index of the first binding of `seq` in `region`, if any.
pub open spec fn lookup(bs: Seq<Binding>, region: Focus, seq: Seq<Key>) -> Option<int>
    decreases bs.len(),
{
    if bs.len() == 0 {
        None
    } else {
        match lookup(bs.drop_last(), region, seq) {
            Some(i) => Some(i),
            None => if binds(bs.last(), region, seq) {
                Some(bs.len() - 1)
            } else {
                None
            },
        }
    }
}

/// One key press: the pending keys extended by `key` are looked up first,
/// then `key` alone; a match yields its binding and empties the pending keys,
/// a miss yields nothing and keeps the extended sequence pending.
pub open spec fn step(bs: Seq<Binding>, region: Focus, pending: Seq<Key>, key: Key) -> (Option<int>, Seq<Key>) {
    let ext = pending.push(key);
    match lookup(bs, region, ext) {
        Some(i) => (Some(i), Seq::empty()),
        None => match lookup(bs, region, seq![key]) {
            Some(i) => (Some(i), Seq::empty()),
            None => (None, ext),
        },
    }
}

/// The results of pressing `keys` one after another, and the keys left pending.
pub open spec fn feed(bs: Seq<Binding>, region: Focus, pending: Seq<Key>, keys: Seq<Key>) -> (Seq<Option<int>>, Seq<Key>)
    decreases keys.len(),
{
    if keys.len() == 0 {
        (Seq::empty(), pending)
    } else {
        let (o, p) = step(bs, region, pending, keys[0]);
        let (os, q) = feed(bs, region, p, keys.drop_first());
        (seq![o] + os, q)
    }
}

pub open spec fn opt_int(r: Option<usize>) -> Option<int> {
    match r {
        Some(i) => Some(i as int),
        None => None,
    }
}

proof fn lemma_lookup_range(bs: Seq<Binding>, region: Focus, seq: Seq<Key>)
    ensures
        lookup(bs, region, seq) matches Some(i) ==> 0 <= i < bs.len() && binds(bs[i], region, seq),
        lookup(bs, region, seq) is None ==> forall|j: int| 0 <= j < bs.len() ==> !binds(#[trigger] bs[j], region, seq),
    decreases bs.len(),
{
    if bs.len() > 0 {
        lemma_lookup_range(bs.drop_last(), region, seq);
        assert forall|j: int| 0 <= j < bs.len() - 1 implies bs.drop_last()[j] == bs[j] by {}
    }
}

proof fn lemma_lookup_extends(bs: Seq<Binding>, region: Focus, seq: Seq<Key>, k: int)
    requires
        0 <= k <= bs.len(),
        lookup(bs.take(k), region, seq) is Some,
    ensures
        lookup(bs, region, seq) == lookup(bs.take(k), region, seq),
    decreases bs.len(),
{
    if k == bs.len() {
        assert(bs.take(k) =~= bs);
    } else {
        assert(bs.drop_last().take(k) =~= bs.take(k));
        lemma_lookup_extends(bs.drop_last(), region, seq, k);
    }
}

/// Whether two key sequences are the same.
fn same_keys(a: &Vec<Key>, b: &Vec<Key>) -> (r: bool)
    ensures
        r == (a@ == b@),
{
    if a.len() != b.len() {
        return false;
    }
    let mut i: usize = 0;
    while i < a.len()
        invariant
            a@.len() == b@.len(),
            i <= a@.len(),
            forall|k: int| 0 <= k < i ==> a@[k] == b@[k],
        decreases a.len() - i,
    {
        if a[i] != b[i] {
            return false;
        }
        i = i + 1;
    }
    assert(a@ =~= b@);
    true
}

impl KeyBindings {
    pub fn new() -> (r: KeyBindings)
        ensures
            r.bindings@.len() == 0,
    {
        KeyBindings { bindings: Vec::new() }
    }

    /// Adds a binding after all existing ones.
    pub fn bind(&mut self, region: Focus, keys: Vec<Key>, action: Action)
        ensures
            final(self).bindings@ == old(self).bindings@.push(Binding { region, keys, action }),
    {
        self.bindings.push(Binding { region, keys, action });
    }

    /// The index of the first binding of `keys` in `region`, if any.
    pub fn find(&self, region: Focus, keys: &Vec<Key>) -> (r: Option<usize>)
        ensures
            opt_int(r) == lookup(self.bindings@, region, keys@),
    {
        let mut i: usize = 0;
        while i < self.bindings.len()
            invariant
                i <= self.bindings@.len(),
                lookup(self.bindings@.take(i as int), region, keys@) is None,
            decreases self.bindings.len() - i,
        {
            let b = &self.bindings[i];
            assert(self.bindings@.take(i + 1).drop_last() =~= self.bindings@.take(i as int));
            if b.region == region && same_keys(&b.keys, keys) {
                proof {
                    lemma_lookup_extends(self.bindings@, region, keys@, i + 1);
                }
                return Some(i);
            }
            i = i + 1;
        }
        assert(self.bindings@.take(i as int) =~= self.bindings@);
        None
    }

    /// The action of the binding at `i`.
    pub fn action(&self, i: usize) -> (r: &Action)
        requires
            i < self.bindings@.len(),
        ensures
            *r == self.bindings@[i as int].action,
    {
        &self.bindings[i].action
    }
}

/// The keys of a sequence typed so far that no binding has matched yet.
pub struct KeySequenceResolver {
    pub pending: Vec<Key>,
}

impl KeySequenceResolver {
    pub fn new() -> (r: KeySequenceResolver)
        ensures
            r.pending@ == Seq::<Key>::empty(),
    {
        KeySequenceResolver { pending: Vec::new() }
    }

    /// Resolves a key press in `region`: returns the index of the matched
    /// binding, and updates the pending keys, as `step` says.
    pub fn resolve(&mut self, bindings: &KeyBindings, region: Focus, key: Key) -> (r: Option<usize>)
        ensures
            (opt_int(r), final(self).pending@) == step(bindings.bindings@, region, old(self).pending@, key),
            r matches Some(i) ==> i < bindings.bindings@.len(),
    {
        proof {
            lemma_lookup_range(bindings.bindings@, region, old(self).pending@.push(key));
            lemma_lookup_range(bindings.bindings@, region, seq![key]);
        }
        self.pending.push(key);
        let ext = bindings.find(region, &self.pending);
        if ext.is_some() {
            self.pending = Vec::new();
            return ext;
        }
        let single = vec![key];
        proof {
            assert(single@ =~= seq![key]);
        }
        let one = bindings.find(region, &single);
        if one.is_some() {
            self.pending = Vec::new();
        }
        one
    }

    /// A tick: the pending keys are dropped.
    pub fn tick(&mut self)
        ensures
            final(self).pending@ == Seq::<Key>::empty(),
    {
        self.pending = Vec::new();
    }
}

} // verus!

verus! {

pub open spec fn nones(n: nat) -> Seq<Option<int>> {
    Seq::new(n, |k: int| None)
}

/// No prefix of `ks`, taken after `pending`, is bound, and no key of `ks` is bound alone.
pub open spec fn unbound_prefixes(bs: Seq<Binding>, region: Focus, pending: Seq<Key>, ks: Seq<Key>) -> bool {
    forall|k: int|
        0 <= k < ks.len() ==> lookup(bs, region, pending + ks.take(k + 1)) is None && lookup(
            bs,
            region,
            seq![#[trigger] ks[k]],
        ) is None
}

proof fn lemma_feed_unbound(bs: Seq<Binding>, region: Focus, p: Seq<Key>, ks: Seq<Key>)
    requires
        unbound_prefixes(bs, region, p, ks),
    ensures
        feed(bs, region, p, ks) == (nones(ks.len()), p + ks),
    decreases ks.len(),
{
    if ks.len() == 0 {
        assert(p + ks =~= p);
        assert(nones(0) =~= Seq::<Option<int>>::empty());
    } else {
        let p1 = p.push(ks[0]);
        assert(p + ks.take(1) =~= p1);
        let _ = ks[0];
        assert(step(bs, region, p, ks[0]) == (None::<int>, p1));
        let rest = ks.drop_first();
        assert forall|k: int| 0 <= k < rest.len() implies lookup(bs, region, p1 + rest.take(k + 1)) is None
            && lookup(bs, region, seq![#[trigger] rest[k]]) is None by {
            assert(p1 + rest.take(k + 1) =~= p + ks.take(k + 2));
            assert(rest[k] == ks[k + 1]);
        }
        lemma_feed_unbound(bs, region, p1, rest);
        assert(p1 + rest =~= p + ks);
        assert(seq![None::<int>] + nones(rest.len()) =~= nones(ks.len()));
    }
}

proof fn lemma_feed_append(bs: Seq<Binding>, region: Focus, p: Seq<Key>, a: Seq<Key>, b: Seq<Key>)
    ensures
        feed(bs, region, p, a + b) == ({
            let (oa, q) = feed(bs, region, p, a);
            let (ob, r) = feed(bs, region, q, b);
            (oa + ob, r)
        }),
    decreases a.len(),
{
    if a.len() == 0 {
        assert(a + b =~= b);
        let (ob, r) = feed(bs, region, p, b);
        assert(Seq::<Option<int>>::empty() + ob =~= ob);
    } else {
        let (o, p1) = step(bs, region, p, a[0]);
        assert((a + b).drop_first() =~= a.drop_first() + b);
        assert((a + b)[0] == a[0]);
        lemma_feed_append(bs, region, p1, a.drop_first(), b);
        let (oa1, q) = feed(bs, region, p1, a.drop_first());
        let (ob, r) = feed(bs, region, q, b);
        assert(seq![o] + (oa1 + ob) =~= (seq![o] + oa1) + ob);
    }
}

/// Pressing, from an empty pending buffer, the keys of a configured sequence
/// none of whose shorter prefixes, nor earlier keys alone, are bound yields
/// nothing until the last key, then exactly the sequence's binding, and
/// leaves no key pending.
pub proof fn lemma_configured_sequence_resolves(bs: Seq<Binding>, region: Focus, keys: Seq<Key>)
    requires
        keys.len() >= 1,
        lookup(bs, region, keys) is Some,
        unbound_prefixes(bs, region, Seq::empty(), keys.take(keys.len() - 1)),
    ensures
        feed(bs, region, Seq::empty(), keys) == (nones((keys.len() - 1) as nat).push(lookup(bs, region, keys)), Seq::<Key>::empty()),
{
    let n = keys.len();
    let front = keys.take(n - 1);
    let last = keys[n - 1];
    lemma_feed_unbound(bs, region, Seq::empty(), front);
    assert(Seq::<Key>::empty() + front =~= front);
    assert(front + seq![last] =~= keys);
    lemma_feed_append(bs, region, Seq::empty(), front, seq![last]);
    assert(front.push(last) =~= keys);
    let tail = seq![last];
    assert(tail.drop_first() =~= Seq::<Key>::empty());
    assert(tail[0] == last);
    assert(step(bs, region, front, last) == (lookup(bs, region, keys), Seq::<Key>::empty()));
    assert(feed(bs, region, Seq::<Key>::empty(), tail.drop_first()) == (Seq::<Option<int>>::empty(), Seq::<Key>::empty()));
    assert(seq![lookup(bs, region, keys)] + Seq::<Option<int>>::empty() =~= seq![lookup(bs, region, keys)]);
    assert(feed(bs, region, front, tail) == (seq![lookup(bs, region, keys)], Seq::<Key>::empty()));
    assert(nones((n - 1) as nat) + seq![lookup(bs, region, keys)] =~= nones((n - 1) as nat).push(lookup(bs, region, keys)));
}

/// Pressing, from an empty pending buffer, the keys of a proper prefix of a
/// configured sequence, when no prefix and no key alone is bound, yields no
/// action, and after each press the pending buffer holds exactly the keys
/// pressed so far, so it only grows.
pub proof fn lemma_partial_sequence_pends(bs: Seq<Binding>, region: Focus, full: Seq<Key>, ks: Seq<Key>)
    requires
        lookup(bs, region, full) is Some,
        ks.len() < full.len(),
        ks == full.take(ks.len() as int),
        unbound_prefixes(bs, region, Seq::empty(), ks),
    ensures
        feed(bs, region, Seq::empty(), ks) == (nones(ks.len()), ks),
        forall|n: int| 0 <= n <= ks.len() ==> #[trigger] feed(bs, region, Seq::empty(), ks.take(n)).1 == ks.take(n),
{
    lemma_feed_unbound(bs, region, Seq::empty(), ks);
    assert(Seq::<Key>::empty() + ks =~= ks);
    assert forall|n: int| 0 <= n <= ks.len() implies #[trigger] feed(bs, region, Seq::empty(), ks.take(n)).1 == ks.take(n) by {
        let pre = ks.take(n);
        assert forall|k: int| 0 <= k < pre.len() implies lookup(bs, region, Seq::<Key>::empty() + pre.take(k + 1)) is None
            && lookup(bs, region, seq![#[trigger] pre[k]]) is None by {
            assert(pre.take(k + 1) =~= ks.take(k + 1));
            assert(pre[k] == ks[k]);
        }
        lemma_feed_unbound(bs, region, Seq::empty(), pre);
        assert(Seq::<Key>::empty() + pre =~= pre);
    }
}

} // verus!
