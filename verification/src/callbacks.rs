use vstd::prelude::*;

verus! {

/// Position of the callback `id`, or the number of callbacks when there is none.
pub open spec fn callback_position<C>(v: Seq<(usize, C)>, id: usize) -> int
    decreases v.len(),
{
    if v.len() == 0 {
        0
    } else if callback_position(v.drop_last(), id) < v.len() - 1 {
        callback_position(v.drop_last(), id)
    } else if v.last().0 == id {
        v.len() - 1
    } else {
        v.len() as int
    }
}

/// `callback_position` finds the callback `id`, or none when there is none.
pub proof fn lemma_callback_position<C>(v: Seq<(usize, C)>, id: usize)
    ensures
        0 <= callback_position(v, id) <= v.len(),
        callback_position(v, id) < v.len() ==> v[callback_position(v, id)].0 == id,
        forall|i: int| 0 <= i < callback_position(v, id) ==> (#[trigger] v[i]).0 != id,
    decreases v.len(),
{
    if v.len() > 0 {
        lemma_callback_position(v.drop_last(), id);
        assert forall|i: int| 0 <= i < v.len() - 1 implies #[trigger] v[i] == v.drop_last()[i] by {}
    }
}

/// The table after registering `c` under `id`: it replaces a callback of that id in place,
/// or comes last.
pub open spec fn spec_add_callback<C>(v: Seq<(usize, C)>, id: usize, c: C) -> Seq<(usize, C)> {
    let p = callback_position(v, id);
    if p < v.len() { v.update(p, (id, c)) } else { v.push((id, c)) }
}

/// The table after unregistering `id`: the others keep their order.
pub open spec fn spec_remove_callback<C>(v: Seq<(usize, C)>, id: usize) -> Seq<(usize, C)> {
    let p = callback_position(v, id);
    if p < v.len() { v.remove(p) } else { v }
}

/// A registration or an unregistration.
pub enum CallbackOp<C> {
    Add(usize, C),
    Remove(usize),
}

/// The table after a run of operations.
pub open spec fn spec_callbacks_run<C>(v: Seq<(usize, C)>, ops: Seq<CallbackOp<C>>) -> Seq<(usize, C)>
    decreases ops.len(),
{
    if ops.len() == 0 {
        v
    } else {
        let t = spec_callbacks_run(v, ops.drop_last());
        match ops.last() {
            CallbackOp::Add(id, c) => spec_add_callback(t, id, c),
            CallbackOp::Remove(id) => spec_remove_callback(t, id),
        }
    }
}

/// The entries of `s` whose id is not `id`, in order.
pub open spec fn without_id<C>(s: Seq<(usize, C)>, id: usize) -> Seq<(usize, C)>
    decreases s.len(),
{
    if s.len() == 0 {
        s
    } else if s.last().0 == id {
        without_id(s.drop_last(), id)
    } else {
        without_id(s.drop_last(), id).push(s.last())
    }
}

/// The callbacks a run of operations leaves registered: each added one that was not removed
/// after it was added, in the order they were added.
pub open spec fn spec_registered<C>(ops: Seq<CallbackOp<C>>) -> Seq<(usize, C)>
    decreases ops.len(),
{
    if ops.len() == 0 {
        Seq::empty()
    } else {
        let r = spec_registered(ops.drop_last());
        match ops.last() {
            CallbackOp::Add(id, c) => r.push((id, c)),
            CallbackOp::Remove(id) => without_id(r, id),
        }
    }
}

/// Every operation that adds uses an id that no other operation of the run adds.
pub open spec fn fresh_ids<C>(ops: Seq<CallbackOp<C>>) -> bool {
    forall|i: int, j: int| 0 <= i < j < ops.len() ==> match (#[trigger] ops[i], #[trigger] ops[j]) {
        (CallbackOp::Add(a, _), CallbackOp::Add(b, _)) => a != b,
        _ => true,
    }
}

/// Whether an operation adds `id`.
pub open spec fn is_add_of<C>(op: CallbackOp<C>, id: usize) -> bool {
    match op {
        CallbackOp::Add(a, _) => a == id,
        CallbackOp::Remove(_) => false,
    }
}

/// Whether a run adds `id`.
pub open spec fn adds_id<C>(ops: Seq<CallbackOp<C>>, id: usize) -> bool {
    exists|i: int| 0 <= i < ops.len() && is_add_of(#[trigger] ops[i], id)
}

proof fn lemma_without_id<C>(s: Seq<(usize, C)>, id: usize)
    requires
        unique_callback_ids(s),
    ensures
        spec_remove_callback(s, id) == without_id(s, id),
        unique_callback_ids(without_id(s, id)),
        forall|k: int| 0 <= k < without_id(s, id).len() ==> s.contains(#[trigger] without_id(s, id)[k]),
    decreases s.len(),
{
    lemma_callback_position(s, id);
    if s.len() > 0 {
        let d = s.drop_last();
        assert(unique_callback_ids(d)) by {
            assert forall|i: int, j: int| 0 <= i < j < d.len() implies (#[trigger] d[i]).0 != (#[trigger] d[j]).0 by {
                assert(d[i] == s[i] && d[j] == s[j]);
            }
        }
        lemma_without_id(d, id);
        lemma_callback_position(d, id);
        let w = without_id(d, id);
        assert forall|k: int| 0 <= k < w.len() implies s.contains(#[trigger] w[k]) by {
            let m = choose|m: int| 0 <= m < d.len() && d[m] == w[k];
            assert(s[m] == d[m]);
        }
        if s.last().0 == id {
            assert(callback_position(d, id) == d.len()) by {
                if callback_position(d, id) < d.len() {
                    assert(s[callback_position(d, id)].0 == s[s.len() - 1].0);
                }
            }
            assert(s.remove(s.len() - 1) =~= d);
        } else {
            let ws = w.push(s.last());
            assert forall|k: int| 0 <= k < ws.len() implies s.contains(#[trigger] ws[k]) by {
                if k == w.len() {
                    assert(s[s.len() - 1] == ws[k]);
                }
            }
            assert forall|i: int, j: int| 0 <= i < j < ws.len() implies (#[trigger] ws[i]).0 != (#[trigger] ws[j]).0 by {
                if j == w.len() {
                    let m = choose|m: int| 0 <= m < s.len() && s[m] == ws[i];
                    let m2 = choose|m2: int| 0 <= m2 < d.len() && d[m2] == w[i];
                    assert(s[m2] == d[m2]);
                }
            }
            if callback_position(d, id) < d.len() {
                let p = callback_position(d, id);
                assert(s.remove(p) =~= d.remove(p).push(s.last()));
            } else {
                assert(callback_position(s, id) == s.len());
            }
        }
    }
}

/// A run of operations that adds each id once, from an empty table, leaves exactly the
/// callbacks added and not removed afterwards, in the order they were added, each id once; so
/// calling the table's callbacks in order calls each registered callback once, in the order
/// of registration.
pub proof fn lemma_callbacks_run<C>(ops: Seq<CallbackOp<C>>)
    requires
        fresh_ids(ops),
    ensures
        spec_callbacks_run(Seq::<(usize, C)>::empty(), ops) == spec_registered(ops),
        unique_callback_ids(spec_registered(ops)),
        forall|k: int| 0 <= k < spec_registered(ops).len() ==> adds_id(ops, (#[trigger] spec_registered(ops)[k]).0),
    decreases ops.len(),
{
    if ops.len() > 0 {
        let d = ops.drop_last();
        assert(fresh_ids(d)) by {
            assert forall|i: int, j: int| 0 <= i < j < d.len() implies match (#[trigger] d[i], #[trigger] d[j]) {
                (CallbackOp::Add(a, _), CallbackOp::Add(b, _)) => a != b,
                _ => true,
            } by {
                assert(d[i] == ops[i] && d[j] == ops[j]);
            }
        }
        lemma_callbacks_run(d);
        let r = spec_registered(d);
        assert forall|k: int| 0 <= k < r.len() implies adds_id(ops, (#[trigger] r[k]).0) by {
            let i = choose|i: int| 0 <= i < d.len() && is_add_of(#[trigger] d[i], r[k].0);
            assert(ops[i] == d[i]);
        }
        match ops.last() {
            CallbackOp::Add(id, c) => {
                lemma_callback_position(r, id);
                assert(callback_position(r, id) == r.len()) by {
                    if callback_position(r, id) < r.len() {
                        let k = callback_position(r, id);
                        let i = choose|i: int| 0 <= i < d.len() && is_add_of(#[trigger] d[i], r[k].0);
                        assert(ops[i] == d[i]);
                        assert(match (ops[i], ops[ops.len() - 1]) {
                            (CallbackOp::Add(a, _), CallbackOp::Add(b, _)) => a != b,
                            _ => true,
                        });
                    }
                }
                let n = r.push((id, c));
                assert forall|i: int, j: int| 0 <= i < j < n.len() implies (#[trigger] n[i]).0 != (#[trigger] n[j]).0 by {
                    if j == r.len() {
                        assert(r[i].0 != id);
                    } else {
                        assert(n[i] == r[i] && n[j] == r[j]);
                    }
                }
                assert forall|k: int| 0 <= k < n.len() implies adds_id(ops, (#[trigger] n[k]).0) by {
                    if k == r.len() {
                        assert(is_add_of(ops[ops.len() - 1], id));
                    } else {
                        assert(n[k] == r[k]);
                    }
                }
            },
            CallbackOp::Remove(id) => {
                lemma_without_id(r, id);
                let w = without_id(r, id);
                assert forall|k: int| 0 <= k < w.len() implies adds_id(ops, (#[trigger] w[k]).0) by {
                    let m = choose|m: int| 0 <= m < r.len() && r[m] == w[k];
                    assert(adds_id(ops, r[m].0));
                }
            },
        }
    }
}

/// No id names two callbacks.
pub open spec fn unique_callback_ids<C>(v: Seq<(usize, C)>) -> bool {
    forall|i: int, j: int| 0 <= i < j < v.len() ==> (#[trigger] v[i]).0 != (#[trigger] v[j]).0
}

/// The callbacks registered on a driver, by id, in the order in which they are called.
pub struct CallbackTable<C> {
    callbacks: Vec<(usize, C)>,
}

impl<C> View for CallbackTable<C> {
    type V = Seq<(usize, C)>;

    closed spec fn view(&self) -> Seq<(usize, C)> {
        self.callbacks@
    }
}

impl<C> CallbackTable<C> {
    /// No id names two callbacks.
    pub open spec fn wf(&self) -> bool {
        unique_callback_ids(self@)
    }

    /// A table without callbacks.
    pub fn new() -> (t: Self)
        ensures
            t.wf(),
            t@ == Seq::<(usize, C)>::empty(),
    {
        CallbackTable { callbacks: Vec::new() }
    }

    fn position(&self, id: usize) -> (r: usize)
        ensures
            r == callback_position(self@, id),
    {
        proof {
            lemma_callback_position(self@, id);
        }
        let mut i: usize = 0;
        while i < self.callbacks.len() && self.callbacks[i].0 != id
            invariant
                0 <= i <= self@.len(),
                self@ == self.callbacks@,
                forall|k: int| 0 <= k < i ==> (#[trigger] self@[k]).0 != id,
                0 <= callback_position(self@, id) <= self@.len(),
                callback_position(self@, id) < self@.len() ==> self@[callback_position(self@, id)].0 == id,
                forall|k: int| 0 <= k < callback_position(self@, id) ==> (#[trigger] self@[k]).0 != id,
            decreases self@.len() - i,
        {
            i = i + 1;
        }
        i
    }

    /// Registers `callback` under `id`: it replaces, in place, a callback of that id, and
    /// otherwise comes last.
    pub fn add_callback(&mut self, id: usize, callback: C)
        requires
            old(self).wf(),
        ensures
            final(self).wf(),
            final(self)@ == spec_add_callback(old(self)@, id, callback),
    {
        proof {
            lemma_callback_position(self@, id);
        }
        let p = self.position(id);
        let ghost v = self@;
        if p < self.callbacks.len() {
            self.callbacks.set(p, (id, callback));
            proof {
                assert forall|i: int, j: int| 0 <= i < j < self@.len() implies (#[trigger] self@[i]).0 != (#[trigger] self@[j]).0 by {
                    assert(self@[i].0 == v[i].0 && self@[j].0 == v[j].0);
                }
            }
        } else {
            self.callbacks.push((id, callback));
            proof {
                assert forall|i: int, j: int| 0 <= i < j < self@.len() implies (#[trigger] self@[i]).0 != (#[trigger] self@[j]).0 by {
                    if j == v.len() {
                        assert(v[i].0 != id);
                    } else {
                        assert(self@[i] == v[i] && self@[j] == v[j]);
                    }
                }
            }
        }
    }

    /// Unregisters the callback `id`, keeping the others in their order; nothing when there
    /// is no such callback.
    pub fn remove_callback(&mut self, id: usize)
        requires
            old(self).wf(),
        ensures
            final(self).wf(),
            final(self)@ == spec_remove_callback(old(self)@, id),
    {
        let p = self.position(id);
        if p == self.callbacks.len() {
            return;
        }
        let ghost v = self@;
        let _ = self.callbacks.remove(p);
        proof {
            assert forall|i: int, j: int| 0 <= i < j < self@.len() implies (#[trigger] self@[i]).0 != (#[trigger] self@[j]).0 by {
                let a = if i < p { i } else { i + 1 };
                let b = if j < p { j } else { j + 1 };
                assert(self@[i] == v[a] && self@[j] == v[b]);
            }
        }
    }

    /// The callbacks with their ids, in the order in which they are called.
    pub fn callbacks(&self) -> (r: &[(usize, C)])
        ensures
            r@ == self@,
    {
        self.callbacks.as_slice()
    }
}

} // verus!
