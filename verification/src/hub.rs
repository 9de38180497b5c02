use vstd::prelude::*;

verus! {

/// How many heartbeats the initial burst sends.
pub const HEARTBEAT_BURST_SIZE: u8 = 5;

/// How long the heartbeat task waits before its next heartbeat.
#[derive(Clone, Copy, Debug, PartialEq, Eq, Structural)]
pub enum HeartbeatDelay {
    /// A tenth of a second, during the initial burst.
    Burst,
    /// The period of the configured heartbeat frequency.
    Regular,
}

/// The pace of the hub's heartbeats: an optional burst of a few heartbeats a tenth of a second
/// apart, which wakes up autopilots, then the configured frequency.
#[derive(Clone, Copy, Debug, PartialEq, Eq, Structural)]
pub struct HeartbeatSchedule {
    pub do_burst: bool,
    pub burst_msgs_counter: u8,
}

/// The schedule after choosing the next delay, and that delay. The burst ends once it has
/// sent all its heartbeats; the delay that ends it is still a burst delay.
pub open spec fn spec_next_delay(s: HeartbeatSchedule) -> (HeartbeatSchedule, HeartbeatDelay) {
    if s.do_burst {
        (
            HeartbeatSchedule { do_burst: s.burst_msgs_counter != HEARTBEAT_BURST_SIZE, burst_msgs_counter: s.burst_msgs_counter },
            HeartbeatDelay::Burst,
        )
    } else {
        (s, HeartbeatDelay::Regular)
    }
}

/// The schedule after a heartbeat was sent: one more heartbeat of the burst, while it lasts.
pub open spec fn spec_heartbeat_sent(s: HeartbeatSchedule) -> HeartbeatSchedule {
    if s.do_burst && s.burst_msgs_counter < HEARTBEAT_BURST_SIZE {
        HeartbeatSchedule { do_burst: s.do_burst, burst_msgs_counter: (s.burst_msgs_counter + 1) as u8 }
    } else {
        s
    }
}

/// The schedule after `n` rounds of waiting and sending.
pub open spec fn rounds(s: HeartbeatSchedule, n: nat) -> HeartbeatSchedule
    decreases n,
{
    if n == 0 {
        s
    } else {
        rounds(spec_heartbeat_sent(spec_next_delay(s).0), (n - 1) as nat)
    }
}

impl HeartbeatSchedule {
    /// The counter never passes the size of the burst.
    pub open spec fn wf(self) -> bool {
        self.burst_msgs_counter <= HEARTBEAT_BURST_SIZE
    }

    /// A schedule that starts with a burst when `send_initial_heartbeats` is set.
    pub fn new(send_initial_heartbeats: bool) -> (r: HeartbeatSchedule)
        ensures
            r.wf(),
            r == (HeartbeatSchedule { do_burst: send_initial_heartbeats, burst_msgs_counter: 0 }),
    {
        HeartbeatSchedule { do_burst: send_initial_heartbeats, burst_msgs_counter: 0 }
    }

    /// Chooses the delay before the next heartbeat.
    pub fn next_delay(&mut self) -> (r: HeartbeatDelay)
        requires
            old(self).wf(),
        ensures
            final(self).wf(),
            (*final(self), r) == spec_next_delay(*old(self)),
    {
        if self.do_burst {
            if self.burst_msgs_counter == HEARTBEAT_BURST_SIZE {
                self.do_burst = false;
            }
            HeartbeatDelay::Burst
        } else {
            HeartbeatDelay::Regular
        }
    }

    /// Counts a heartbeat that was sent.
    pub fn heartbeat_sent(&mut self)
        requires
            old(self).wf(),
        ensures
            final(self).wf(),
            *final(self) == spec_heartbeat_sent(*old(self)),
    {
        if self.do_burst && self.burst_msgs_counter < HEARTBEAT_BURST_SIZE {
            self.burst_msgs_counter = self.burst_msgs_counter + 1;
        }
    }
}

/// Once the burst is over it never starts again: every later delay is regular.
pub proof fn lemma_burst_never_restarts(s: HeartbeatSchedule, n: nat)
    requires
        !s.do_burst,
    ensures
        rounds(s, n) == s,
        spec_next_delay(rounds(s, n)).1 == HeartbeatDelay::Regular,
    decreases n,
{
    if n > 0 {
        lemma_burst_never_restarts(s, (n - 1) as nat);
    }
}

/// With heartbeats sent as scheduled, a burst waits a tenth of a second before each of its
/// five heartbeats and before the sixth, then ends.
pub proof fn lemma_burst_length()
    ensures
        forall|n: nat| n <= HEARTBEAT_BURST_SIZE ==> #[trigger] rounds(HeartbeatSchedule { do_burst: true, burst_msgs_counter: 0 }, n)
            == (HeartbeatSchedule { do_burst: true, burst_msgs_counter: n as u8 }),
        spec_next_delay(rounds(HeartbeatSchedule { do_burst: true, burst_msgs_counter: 0 }, 5)).1 == HeartbeatDelay::Burst,
        !rounds(HeartbeatSchedule { do_burst: true, burst_msgs_counter: 0 }, 6).do_burst,
{
    let s = HeartbeatSchedule { do_burst: true, burst_msgs_counter: 0 };
    assert forall|n: nat| n <= HEARTBEAT_BURST_SIZE implies #[trigger] rounds(s, n) == (HeartbeatSchedule { do_burst: true, burst_msgs_counter: n as u8 }) by {
        lemma_rounds_during_burst(n);
    }
    lemma_rounds_during_burst(5);
    lemma_rounds_split(s, 5, 1);
    reveal_with_fuel(rounds, 2);
    assert(rounds(rounds(s, 5), 1) == spec_heartbeat_sent(spec_next_delay(rounds(s, 5)).0));
}

proof fn lemma_rounds_during_burst(n: nat)
    requires
        n <= HEARTBEAT_BURST_SIZE,
    ensures
        rounds(HeartbeatSchedule { do_burst: true, burst_msgs_counter: 0 }, n)
            == (HeartbeatSchedule { do_burst: true, burst_msgs_counter: n as u8 }),
    decreases n,
{
    if n > 0 {
        let s = HeartbeatSchedule { do_burst: true, burst_msgs_counter: 0 };
        let m = (n - 1) as nat;
        lemma_rounds_during_burst(m);
        lemma_rounds_split(s, m, 1);
        assert(m + 1 == n);
        reveal_with_fuel(rounds, 2);
        assert(rounds(rounds(s, m), 1) == spec_heartbeat_sent(spec_next_delay(rounds(s, m)).0));
    }
}

proof fn lemma_rounds_split(s: HeartbeatSchedule, a: nat, b: nat)
    ensures
        rounds(s, a + b) == rounds(rounds(s, a), b),
    decreases a,
{
    if a > 0 {
        lemma_rounds_split(spec_heartbeat_sent(spec_next_delay(s).0), (a - 1) as nat, b);
    }
}

/// Why the hub refused to change its drivers.
#[derive(Debug, Clone, Copy, PartialEq, Eq, Structural)]
pub enum HubError {
    /// A driver with this id was already present; the new driver took its place but was not
    /// started.
    DuplicateDriver(u128),
    /// No driver has this id.
    DriverNotFound(u128),
}

/// Position of the driver `id`, or the number of drivers when there is none.
pub open spec fn driver_position<D>(v: Seq<(u128, D)>, id: u128) -> int
    decreases v.len(),
{
    if v.len() == 0 {
        0
    } else if driver_position(v.drop_last(), id) < v.len() - 1 {
        driver_position(v.drop_last(), id)
    } else if v.last().0 == id {
        v.len() - 1
    } else {
        v.len() as int
    }
}

/// `driver_position` finds the driver `id`, or none when there is none.
pub proof fn lemma_driver_position<D>(v: Seq<(u128, D)>, id: u128)
    ensures
        0 <= driver_position(v, id) <= v.len(),
        driver_position(v, id) < v.len() ==> v[driver_position(v, id)].0 == id,
        forall|i: int| 0 <= i < driver_position(v, id) ==> (#[trigger] v[i]).0 != id,
    decreases v.len(),
{
    if v.len() > 0 {
        lemma_driver_position(v.drop_last(), id);
        assert forall|i: int| 0 <= i < v.len() - 1 implies #[trigger] v[i] == v.drop_last()[i] by {}
    }
}

/// No id names two drivers.
pub open spec fn unique_driver_ids<D>(v: Seq<(u128, D)>) -> bool {
    forall|i: int, j: int| 0 <= i < j < v.len() ==> (#[trigger] v[i]).0 != (#[trigger] v[j]).0
}

/// The hub's drivers by id, in the order they were added (a removal moves the last driver
/// into the freed place).
pub struct DriverTable<D> {
    drivers: Vec<(u128, D)>,
}

impl<D> View for DriverTable<D> {
    type V = Seq<(u128, D)>;

    closed spec fn view(&self) -> Seq<(u128, D)> {
        self.drivers@
    }
}

impl<D> DriverTable<D> {
    /// No id names two drivers.
    pub open spec fn wf(&self) -> bool {
        unique_driver_ids(self@)
    }

    /// A hub without drivers.
    pub fn new() -> (t: Self)
        ensures
            t.wf(),
            t@ == Seq::<(u128, D)>::empty(),
    {
        DriverTable { drivers: Vec::new() }
    }

    fn position(&self, id: u128) -> (r: usize)
        ensures
            r == driver_position(self@, id),
    {
        proof {
            lemma_driver_position(self@, id);
        }
        let mut i: usize = 0;
        while i < self.drivers.len() && self.drivers[i].0 != id
            invariant
                0 <= i <= self@.len(),
                self@ == self.drivers@,
                forall|k: int| 0 <= k < i ==> (#[trigger] self@[k]).0 != id,
                0 <= driver_position(self@, id) <= self@.len(),
                driver_position(self@, id) < self@.len() ==> self@[driver_position(self@, id)].0 == id,
                forall|k: int| 0 <= k < driver_position(self@, id) ==> (#[trigger] self@[k]).0 != id,
            decreases self@.len() - i,
        {
            i = i + 1;
        }
        i
    }

    /// Adds a driver under `id`. When a driver already has that id, the new one takes its
    /// place and the addition is refused; otherwise it comes last.
    pub fn add_driver(&mut self, id: u128, driver: D) -> (r: Result<u128, HubError>)
        requires
            old(self).wf(),
        ensures
            final(self).wf(),
            driver_position(old(self)@, id) < old(self)@.len() ==> {
                &&& r == Err::<u128, HubError>(HubError::DuplicateDriver(id))
                &&& final(self)@ == old(self)@.update(driver_position(old(self)@, id), (id, driver))
            },
            driver_position(old(self)@, id) == old(self)@.len() ==> {
                &&& r == Ok::<u128, HubError>(id)
                &&& final(self)@ == old(self)@.push((id, driver))
            },
    {
        proof {
            lemma_driver_position(self@, id);
        }
        let p = self.position(id);
        let ghost v = self@;
        if p < self.drivers.len() {
            self.drivers.set(p, (id, driver));
            proof {
                assert forall|i: int, j: int| 0 <= i < j < self@.len() implies (#[trigger] self@[i]).0 != (#[trigger] self@[j]).0 by {
                    assert(self@[i].0 == v[i].0 && self@[j].0 == v[j].0);
                }
            }
            Err(HubError::DuplicateDriver(id))
        } else {
            self.drivers.push((id, driver));
            proof {
                assert forall|i: int, j: int| 0 <= i < j < self@.len() implies (#[trigger] self@[i]).0 != (#[trigger] self@[j]).0 by {
                    if j == v.len() {
                        assert(v[i].0 != id);
                    } else {
                        assert(self@[i] == v[i] && self@[j] == v[j]);
                    }
                }
            }
            Ok(id)
        }
    }

    /// Removes the driver `id`; the last driver moves into its place.
    pub fn remove_driver(&mut self, id: u128) -> (r: Result<D, HubError>)
        requires
            old(self).wf(),
        ensures
            final(self).wf(),
            driver_position(old(self)@, id) < old(self)@.len() ==> {
                let p = driver_position(old(self)@, id);
                &&& r matches Ok(d) && d == old(self)@[p].1
                &&& final(self)@ == old(self)@.update(p, old(self)@.last()).drop_last()
            },
            driver_position(old(self)@, id) == old(self)@.len() ==> {
                &&& r matches Err(e) && e == HubError::DriverNotFound(id)
                &&& final(self)@ == old(self)@
            },
    {
        proof {
            lemma_driver_position(self@, id);
        }
        let p = self.position(id);
        if p == self.drivers.len() {
            return Err(HubError::DriverNotFound(id));
        }
        let ghost v = self@;
        let (_, driver) = self.drivers.swap_remove(p);
        proof {
            let n = v.len() - 1;
            assert forall|i: int, j: int| 0 <= i < j < self@.len() implies (#[trigger] self@[i]).0 != (#[trigger] self@[j]).0 by {
                let a = if i == p { n } else { i };
                let b = if j == p { n } else { j };
                assert(self@[i] == v[a] && self@[j] == v[b]);
            }
        }
        Ok(driver)
    }

    /// The drivers with their ids, in the hub's order.
    pub fn drivers(&self) -> (r: &[(u128, D)])
        ensures
            r@ == self@,
    {
        self.drivers.as_slice()
    }
}

} // verus!
