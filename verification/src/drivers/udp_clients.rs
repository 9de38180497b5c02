use vstd::prelude::*;

use super::Direction;

verus! {

/// A client of a UDP server as values: its address and when it was last heard, in
/// milliseconds of a monotonic clock.
pub type ClientView = (Seq<char>, u64);

/// Time since `last_seen`; a clock reading before it counts as no time.
pub open spec fn spec_elapsed(last_seen: u64, now_ms: u64) -> int {
    if now_ms >= last_seen { now_ms - last_seen } else { 0 }
}

/// Whether a client last heard at `last_seen` is kept at `now_ms`: always without a
/// timeout, else while no more than the timeout has passed.
pub open spec fn spec_client_kept(last_seen: u64, now_ms: u64, timeout_ms: Option<u64>) -> bool {
    match timeout_ms {
        None => true,
        Some(t) => spec_elapsed(last_seen, now_ms) <= t,
    }
}

/// The table after a datagram from `from`: the sender is heard at `now_ms`, every other
/// client stays while it is kept, in table order.
pub open spec fn spec_retained(v: Seq<ClientView>, from: Seq<char>, now_ms: u64, timeout_ms: Option<u64>) -> Seq<ClientView>
    decreases v.len(),
{
    if v.len() == 0 {
        Seq::empty()
    } else {
        let rest = spec_retained(v.drop_last(), from, now_ms, timeout_ms);
        let c = v.last();
        if c.0 == from {
            rest.push((from, now_ms))
        } else if spec_client_kept(c.1, now_ms, timeout_ms) {
            rest.push(c)
        } else {
            rest
        }
    }
}

/// The addresses of the clients that time out at `now_ms`, in table order; the sender never does.
pub open spec fn spec_expired(v: Seq<ClientView>, from: Seq<char>, now_ms: u64, timeout_ms: Option<u64>) -> Seq<Seq<char>>
    decreases v.len(),
{
    if v.len() == 0 {
        Seq::empty()
    } else {
        let rest = spec_expired(v.drop_last(), from, now_ms, timeout_ms);
        let c = v.last();
        if c.0 != from && !spec_client_kept(c.1, now_ms, timeout_ms) {
            rest.push(c.0)
        } else {
            rest
        }
    }
}

/// The table after a datagram from `from` at `now_ms`: see [`UdpClientTable::on_datagram`].
pub open spec fn spec_after_datagram(v: Seq<ClientView>, from: Seq<char>, now_ms: u64, timeout_ms: Option<u64>) -> Seq<ClientView> {
    if holds(v, from) {
        spec_retained(v, from, now_ms, timeout_ms)
    } else {
        spec_retained(v, from, now_ms, timeout_ms).push((from, now_ms))
    }
}

/// Whether a table holds the address `a`.
pub open spec fn holds(v: Seq<ClientView>, a: Seq<char>) -> bool {
    exists|i: int| 0 <= i < v.len() && (#[trigger] v[i]).0 == a
}

/// No address occurs twice in a table.
pub open spec fn unique_addresses(v: Seq<ClientView>) -> bool {
    forall|i: int, j: int| 0 <= i < j < v.len() ==> (#[trigger] v[i]).0 != (#[trigger] v[j]).0
}

/// What the receive loop does for the clients after a datagram.
#[derive(Debug)]
pub struct ClientActions {
    /// The sender is new: start a task that sends to it.
    pub spawn: bool,
    /// These clients timed out: stop their tasks.
    pub aborted: Vec<String>,
}

/// The clients of a UDP server: each address that sent to it, once, with the time it was
/// last heard.
pub struct UdpClientTable {
    clients: Vec<(String, u64)>,
}

impl View for UdpClientTable {
    type V = Seq<ClientView>;

    closed spec fn view(&self) -> Seq<ClientView> {
        self.clients@.map_values(|c: (String, u64)| (c.0@, c.1))
    }
}

impl UdpClientTable {
    /// No address occurs twice.
    pub open spec fn wf(&self) -> bool {
        unique_addresses(self@)
    }

    /// A table without clients.
    pub fn new() -> (t: Self)
        ensures
            t.wf(),
            t@ == Seq::<ClientView>::empty(),
    {
        let t = UdpClientTable { clients: Vec::new() };
        assert(t@ =~= Seq::<ClientView>::empty());
        t
    }

    /// The addresses of the clients, in table order.
    pub fn addresses(&self) -> (r: Vec<String>)
        ensures
            r@.len() == self@.len(),
            forall|i: int| 0 <= i < r@.len() ==> (#[trigger] r@[i])@ == self@[i].0,
    {
        let mut r: Vec<String> = Vec::new();
        let mut i: usize = 0;
        while i < self.clients.len()
            invariant
                i <= self.clients@.len(),
                self@.len() == self.clients@.len(),
                r@.len() == i,
                forall|k: int| 0 <= k < i ==> (#[trigger] r@[k])@ == self@[k].0,
            decreases self.clients@.len() - i,
        {
            r.push(self.clients[i].0.clone());
            i = i + 1;
        }
        r
    }

    /// Takes a datagram from `from` at `now_ms`: refreshes the sender, or adds it and asks
    /// for its send task when it is new; then drops, and asks to stop the tasks of, the
    /// clients not heard for longer than `timeout_ms` (never without a timeout).
    pub fn on_datagram(&mut self, from: String, now_ms: u64, timeout_ms: Option<u64>) -> (r: ClientActions)
        requires
            old(self).wf(),
        ensures
            final(self).wf(),
            r.spawn == !holds(old(self)@, from@),
            final(self)@ == spec_after_datagram(old(self)@, from@, now_ms, timeout_ms),
            r.aborted@.map_values(|s: String| s@) == spec_expired(old(self)@, from@, now_ms, timeout_ms),
    {
        let ghost v = self@;
        let mut kept: Vec<(String, u64)> = Vec::new();
        let mut aborted: Vec<String> = Vec::new();
        let mut found = false;
        let mut i: usize = 0;
        while i < self.clients.len()
            invariant
                i <= self.clients@.len(),
                v == self@,
                v.len() == self.clients@.len(),
                unique_addresses(v),
                kept@.map_values(|c: (String, u64)| (c.0@, c.1)) == spec_retained(v.take(i as int), from@, now_ms, timeout_ms),
                aborted@.map_values(|s: String| s@) == spec_expired(v.take(i as int), from@, now_ms, timeout_ms),
                found == holds(v.take(i as int), from@),
            decreases self.clients@.len() - i,
        {
            let ghost before_kept = kept@.map_values(|c: (String, u64)| (c.0@, c.1));
            let ghost before_aborted = aborted@.map_values(|s: String| s@);
            let addr = self.clients[i].0.clone();
            let last_seen = self.clients[i].1;
            proof {
                assert(v.take(i as int + 1).drop_last() =~= v.take(i as int));
                assert(v.take(i as int + 1).last() == v[i as int]);
                assert(v[i as int] == (self.clients@[i as int].0@, self.clients@[i as int].1));
            }
            if addr == from {
                kept.push((addr, now_ms));
                found = true;
                proof {
                    assert(kept@.map_values(|c: (String, u64)| (c.0@, c.1)) =~= before_kept.push((from@, now_ms)));
                    assert(v.take(i as int + 1)[i as int].0 == from@);
                }
            } else {
                let keep = match timeout_ms {
                    None => true,
                    Some(t) => now_ms.saturating_sub(last_seen) <= t,
                };
                if keep {
                    kept.push((addr, last_seen));
                    proof {
                        assert(kept@.map_values(|c: (String, u64)| (c.0@, c.1)) =~= before_kept.push(v[i as int]));
                    }
                } else {
                    aborted.push(addr);
                    proof {
                        assert(aborted@.map_values(|s: String| s@) =~= before_aborted.push(v[i as int].0));
                    }
                }
                proof {
                    if holds(v.take(i as int + 1), from@) {
                        let k = choose|k: int| 0 <= k < v.take(i as int + 1).len() && (#[trigger] v.take(i as int + 1)[k]).0 == from@;
                        assert(k < i);
                        assert(v.take(i as int)[k].0 == from@);
                    }
                }
            }
            proof {
                if found && !holds(v.take(i as int + 1), from@) {
                    let k = choose|k: int| 0 <= k < v.take(i as int).len() && (#[trigger] v.take(i as int)[k]).0 == from@;
                    assert(v.take(i as int + 1)[k].0 == from@);
                }
            }
            i = i + 1;
        }
        proof {
            assert(v.take(i as int) =~= v);
            lemma_retained_unique(v, from@, now_ms, timeout_ms);
            lemma_retained_holds(v, from@, now_ms, timeout_ms, from@);
        }
        let spawn = !found;
        if spawn {
            kept.push((from, now_ms));
            proof {
                let s = spec_retained(v, from@, now_ms, timeout_ms);
                assert(kept@.map_values(|c: (String, u64)| (c.0@, c.1)) =~= s.push((from@, now_ms)));
            }
        }
        self.clients = kept;
        ClientActions { spawn, aborted }
    }
}

/// After a datagram the sender is in the table, heard at `now_ms`; any other client is in
/// it exactly when it was before and was heard no longer than the timeout ago, with its time
/// unchanged; no address occurs twice; and the clients reported as timed out are exactly
/// those that were dropped.
pub proof fn lemma_datagram_effect(v: Seq<ClientView>, from: Seq<char>, now_ms: u64, timeout_ms: Option<u64>)
    requires
        unique_addresses(v),
    ensures
        unique_addresses(spec_after_datagram(v, from, now_ms, timeout_ms)),
        spec_after_datagram(v, from, now_ms, timeout_ms).contains((from, now_ms)),
        forall|a: Seq<char>| a != from ==> (holds(spec_after_datagram(v, from, now_ms, timeout_ms), a)
            <==> exists|i: int| 0 <= i < v.len() && (#[trigger] v[i]).0 == a && spec_client_kept(v[i].1, now_ms, timeout_ms)),
        forall|c: ClientView| c.0 != from && #[trigger] spec_after_datagram(v, from, now_ms, timeout_ms).contains(c)
            ==> v.contains(c),
        forall|a: Seq<char>| #[trigger] spec_expired(v, from, now_ms, timeout_ms).contains(a)
            <==> (a != from && exists|i: int| 0 <= i < v.len() && (#[trigger] v[i]).0 == a && !spec_client_kept(v[i].1, now_ms, timeout_ms)),
{
    let after = spec_after_datagram(v, from, now_ms, timeout_ms);
    let r = spec_retained(v, from, now_ms, timeout_ms);
    lemma_retained_unique(v, from, now_ms, timeout_ms);
    lemma_retained_holds(v, from, now_ms, timeout_ms, from);
    if holds(v, from) {
        let k = choose|k: int| 0 <= k < r.len() && (#[trigger] r[k]).0 == from;
        lemma_retained_entries(v, from, now_ms, timeout_ms, k);
        assert(r[k] == (from, now_ms));
    } else {
        assert(after[after.len() - 1] == (from, now_ms));
    }
    assert forall|a: Seq<char>| a != from implies (holds(after, a)
        <==> exists|i: int| 0 <= i < v.len() && (#[trigger] v[i]).0 == a && spec_client_kept(v[i].1, now_ms, timeout_ms)) by {
        lemma_retained_holds(v, from, now_ms, timeout_ms, a);
        if holds(after, a) && !holds(v, from) {
            let k = choose|k: int| 0 <= k < after.len() && (#[trigger] after[k]).0 == a;
            assert(k < r.len());
            assert(r[k].0 == a);
        }
        if holds(r, a) && !holds(v, from) {
            let k = choose|k: int| 0 <= k < r.len() && (#[trigger] r[k]).0 == a;
            assert(after[k].0 == a);
        }
        if exists|i: int| 0 <= i < v.len() && (#[trigger] v[i]).0 == a && spec_client_kept(v[i].1, now_ms, timeout_ms) {
            let i = choose|i: int| 0 <= i < v.len() && (#[trigger] v[i]).0 == a && spec_client_kept(v[i].1, now_ms, timeout_ms);
            assert(holds(v, a));
        }
    }
    assert forall|c: ClientView| c.0 != from && #[trigger] after.contains(c) implies v.contains(c) by {
        let k = choose|k: int| 0 <= k < after.len() && after[k] == c;
        assert(k < r.len());
        assert(r[k] == c);
        lemma_retained_entries(v, from, now_ms, timeout_ms, k);
        let i = choose|i: int| 0 <= i < v.len() && #[trigger] v[i] == r[k] && spec_client_kept(v[i].1, now_ms, timeout_ms);
        assert(v[i] == c);
    }
    assert forall|a: Seq<char>| #[trigger] spec_expired(v, from, now_ms, timeout_ms).contains(a)
        <==> (a != from && exists|i: int| 0 <= i < v.len() && (#[trigger] v[i]).0 == a && !spec_client_kept(v[i].1, now_ms, timeout_ms)) by {
        lemma_expired_holds(v, from, now_ms, timeout_ms, a);
    }
}

/// A client is reported as timed out after a datagram exactly when it is not the sender, was
/// in the table and is not kept.
pub proof fn lemma_expired_holds(v: Seq<ClientView>, from: Seq<char>, now_ms: u64, timeout_ms: Option<u64>, a: Seq<char>)
    ensures
        spec_expired(v, from, now_ms, timeout_ms).contains(a)
            <==> (a != from && exists|i: int| 0 <= i < v.len() && (#[trigger] v[i]).0 == a && !spec_client_kept(v[i].1, now_ms, timeout_ms)),
    decreases v.len(),
{
    if v.len() > 0 {
        let d = v.drop_last();
        lemma_expired_holds(d, from, now_ms, timeout_ms, a);
        let e = spec_expired(v, from, now_ms, timeout_ms);
        let ed = spec_expired(d, from, now_ms, timeout_ms);
        if e.contains(a) {
            let k = choose|k: int| 0 <= k < e.len() && e[k] == a;
            if k < ed.len() {
                assert(ed[k] == a);
                let i = choose|i: int| 0 <= i < d.len() && (#[trigger] d[i]).0 == a && !spec_client_kept(d[i].1, now_ms, timeout_ms);
                assert(v[i] == d[i]);
            } else {
                assert(v[v.len() - 1].0 == a);
            }
        }
        if a != from && exists|i: int| 0 <= i < v.len() && (#[trigger] v[i]).0 == a && !spec_client_kept(v[i].1, now_ms, timeout_ms) {
            let i = choose|i: int| 0 <= i < v.len() && (#[trigger] v[i]).0 == a && !spec_client_kept(v[i].1, now_ms, timeout_ms);
            if i < d.len() {
                assert(d[i] == v[i]);
                let k = choose|k: int| 0 <= k < ed.len() && ed[k] == a;
                assert(e[k] == a);
            } else {
                assert(e[e.len() - 1] == a);
            }
        }
    }
}

/// A client is in the table after a datagram exactly when it is the sender or was there
/// and is kept.
pub proof fn lemma_retained_holds(v: Seq<ClientView>, from: Seq<char>, now_ms: u64, timeout_ms: Option<u64>, a: Seq<char>)
    ensures
        holds(spec_retained(v, from, now_ms, timeout_ms), a) <==> holds(v, a) && (a == from
            || exists|i: int| 0 <= i < v.len() && (#[trigger] v[i]).0 == a && spec_client_kept(v[i].1, now_ms, timeout_ms)),
    decreases v.len(),
{
    if v.len() > 0 {
        let d = v.drop_last();
        lemma_retained_holds(d, from, now_ms, timeout_ms, a);
        let r = spec_retained(v, from, now_ms, timeout_ms);
        let rd = spec_retained(d, from, now_ms, timeout_ms);
        if holds(r, a) {
            let k = choose|k: int| 0 <= k < r.len() && (#[trigger] r[k]).0 == a;
            if k < rd.len() {
                assert(rd[k].0 == a);
                let j = choose|j: int| 0 <= j < d.len() && (#[trigger] d[j]).0 == a;
                assert(v[j].0 == a);
                if a != from {
                    let m = choose|m: int| 0 <= m < d.len() && (#[trigger] d[m]).0 == a && spec_client_kept(d[m].1, now_ms, timeout_ms);
                    assert(v[m].0 == a);
                }
            } else {
                assert(v[v.len() - 1].0 == a);
            }
        }
        if holds(v, a) && (a == from
            || exists|i: int| 0 <= i < v.len() && (#[trigger] v[i]).0 == a && spec_client_kept(v[i].1, now_ms, timeout_ms)) {
            let j = choose|j: int| 0 <= j < v.len() && (#[trigger] v[j]).0 == a;
            if j < d.len() {
                assert(d[j].0 == a);
                if a != from {
                    let m = choose|m: int| 0 <= m < v.len() && (#[trigger] v[m]).0 == a && spec_client_kept(v[m].1, now_ms, timeout_ms);
                    if m < d.len() {
                        assert(d[m].0 == a);
                        let k = choose|k: int| 0 <= k < rd.len() && (#[trigger] rd[k]).0 == a;
                        assert(r[k].0 == a);
                    } else {
                        assert(r[r.len() - 1].0 == a);
                    }
                } else {
                    let k = choose|k: int| 0 <= k < rd.len() && (#[trigger] rd[k]).0 == a;
                    assert(r[k].0 == a);
                }
            } else {
                if a == from {
                    assert(r[r.len() - 1].0 == a);
                } else {
                    let m = choose|m: int| 0 <= m < v.len() && (#[trigger] v[m]).0 == a && spec_client_kept(v[m].1, now_ms, timeout_ms);
                    if m < d.len() {
                        assert(d[m].0 == a);
                        let k = choose|k: int| 0 <= k < rd.len() && (#[trigger] rd[k]).0 == a;
                        assert(r[k].0 == a);
                    } else {
                        assert(r[r.len() - 1].0 == a);
                    }
                }
            }
        }
    }
}

/// Every entry of the table after a datagram comes from the table before, the sender's with
/// its time set to `now_ms`.
pub proof fn lemma_retained_entries(v: Seq<ClientView>, from: Seq<char>, now_ms: u64, timeout_ms: Option<u64>, k: int)
    requires
        0 <= k < spec_retained(v, from, now_ms, timeout_ms).len(),
    ensures
        exists|i: int| 0 <= i < v.len() && (#[trigger] v[i]).0 == spec_retained(v, from, now_ms, timeout_ms)[k].0,
        spec_retained(v, from, now_ms, timeout_ms)[k].0 == from ==> spec_retained(v, from, now_ms, timeout_ms)[k].1 == now_ms,
        spec_retained(v, from, now_ms, timeout_ms)[k].0 != from ==> exists|i: int| 0 <= i < v.len()
            && #[trigger] v[i] == spec_retained(v, from, now_ms, timeout_ms)[k]
            && spec_client_kept(v[i].1, now_ms, timeout_ms),
    decreases v.len(),
{
    let d = v.drop_last();
    let rd = spec_retained(d, from, now_ms, timeout_ms);
    let r = spec_retained(v, from, now_ms, timeout_ms);
    if k < rd.len() {
        lemma_retained_entries(d, from, now_ms, timeout_ms, k);
        assert(r[k] == rd[k]);
        let i = choose|i: int| 0 <= i < d.len() && (#[trigger] d[i]).0 == rd[k].0;
        assert(v[i] == d[i]);
        if rd[k].0 != from {
            let m = choose|m: int| 0 <= m < d.len() && #[trigger] d[m] == rd[k] && spec_client_kept(d[m].1, now_ms, timeout_ms);
            assert(v[m] == d[m]);
        }
    } else {
        assert(v[v.len() - 1].0 == r[k].0);
    }
}

/// The table after a datagram holds no address twice when the table before did not.
pub proof fn lemma_retained_unique(v: Seq<ClientView>, from: Seq<char>, now_ms: u64, timeout_ms: Option<u64>)
    requires
        unique_addresses(v),
    ensures
        unique_addresses(spec_retained(v, from, now_ms, timeout_ms)),
        !holds(v, from) ==> unique_addresses(spec_retained(v, from, now_ms, timeout_ms).push((from, now_ms))),
    decreases v.len(),
{
    let r = spec_retained(v, from, now_ms, timeout_ms);
    if v.len() > 0 {
        let d = v.drop_last();
        let rd = spec_retained(d, from, now_ms, timeout_ms);
        assert(unique_addresses(d)) by {
            assert forall|i: int, j: int| 0 <= i < j < d.len() implies (#[trigger] d[i]).0 != (#[trigger] d[j]).0 by {
                assert(v[i] == d[i] && v[j] == d[j]);
            }
        }
        lemma_retained_unique(d, from, now_ms, timeout_ms);
        assert forall|i: int, j: int| 0 <= i < j < r.len() implies (#[trigger] r[i]).0 != (#[trigger] r[j]).0 by {
            if j >= rd.len() {
                assert(r[i] == rd[i]);
                lemma_retained_entries(d, from, now_ms, timeout_ms, i);
                let m = choose|m: int| 0 <= m < d.len() && (#[trigger] d[m]).0 == rd[i].0;
                assert(v[m] == d[m]);
                assert(r[j].0 == v[v.len() - 1].0);
            }
        }
    }
    if !holds(v, from) {
        let s = r.push((from, now_ms));
        assert forall|i: int, j: int| 0 <= i < j < s.len() implies (#[trigger] s[i]).0 != (#[trigger] s[j]).0 by {
            if j == r.len() {
                lemma_retained_entries(v, from, now_ms, timeout_ms, i);
            }
        }
    }
}

/// What the UDP server does with a message it decoded, besides updating its clients (which it
/// always does).
#[derive(Debug, Clone, Copy, PartialEq, Eq, Structural)]
pub struct DatagramPlan {
    /// Count the message in the input statistics and hand it to the input callbacks.
    pub take_input: bool,
    /// Hand the message to the hub once the callbacks ran.
    pub forward: bool,
}

/// The UDP server takes in, and forwards to the hub, a decoded message exactly when its
/// direction lets it receive. An input callback that fails is only reported: the message is
/// still forwarded.
pub fn on_udp_packet(direction: Direction) -> (r: DatagramPlan)
    ensures
        r.take_input == (direction == Direction::Receiver || direction == Direction::Both),
        r.forward == (direction == Direction::Receiver || direction == Direction::Both),
{
    let receives = direction.can_receive();
    DatagramPlan { take_input: receives, forward: receives }
}

} // verus!
