use vstd::prelude::*;

use crate::text::str_eq;

verus! {

/// When a message was first and last seen, and how often.
#[derive(Clone, Copy, Debug, PartialEq, Eq, Structural)]
pub struct Temporal {
    pub first_update_us: u64,
    pub last_update_us: u64,
    pub counter: u64,
}

impl Temporal {
    /// A message seen once, at `now_us`.
    pub fn new(now_us: u64) -> (r: Temporal)
        ensures
            r == (Temporal { first_update_us: now_us, last_update_us: now_us, counter: 1 }),
    {
        Temporal { first_update_us: now_us, last_update_us: now_us, counter: 1 }
    }

    /// The message was seen again at `now_us`; the counter wraps around.
    pub fn update(&mut self, now_us: u64)
        ensures
            final(self).first_update_us == old(self).first_update_us,
            final(self).last_update_us == now_us,
            final(self).counter == (old(self).counter + 1) % 0x1_0000_0000_0000_0000,
    {
        self.last_update_us = now_us;
        self.counter = self.counter.wrapping_add(1);
    }
}


/// The last message of one name from one component of one vehicle, with its timing.
pub struct MessageRecord<M> {
    pub system_id: u8,
    pub component_id: u8,
    pub name: String,
    pub message: M,
    pub time: Temporal,
}

/// A record as values: vehicle, component, message name, message and timing.
pub type RecordView<M> = (u8, u8, Seq<char>, M, Temporal);

/// Position of the record of `name` from `system_id`/`component_id`, or the number of
/// records when there is none.
pub open spec fn record_position<M>(v: Seq<RecordView<M>>, system_id: u8, component_id: u8, name: Seq<char>) -> int
    decreases v.len(),
{
    if v.len() == 0 {
        0
    } else if record_position(v.drop_last(), system_id, component_id, name) < v.len() - 1 {
        record_position(v.drop_last(), system_id, component_id, name)
    } else if v.last().0 == system_id && v.last().1 == component_id && v.last().2 == name {
        v.len() - 1
    } else {
        v.len() as int
    }
}

/// `record_position` finds the record, or none when there is none.
pub proof fn lemma_record_position<M>(v: Seq<RecordView<M>>, system_id: u8, component_id: u8, name: Seq<char>)
    ensures
        0 <= record_position(v, system_id, component_id, name) <= v.len(),
        record_position(v, system_id, component_id, name) < v.len() ==> {
            let r = v[record_position(v, system_id, component_id, name)];
            r.0 == system_id && r.1 == component_id && r.2 == name
        },
        forall|i: int| 0 <= i < record_position(v, system_id, component_id, name)
            ==> !((#[trigger] v[i]).0 == system_id && v[i].1 == component_id && v[i].2 == name),
    decreases v.len(),
{
    if v.len() > 0 {
        lemma_record_position(v.drop_last(), system_id, component_id, name);
        assert forall|i: int| 0 <= i < v.len() - 1 implies #[trigger] v[i] == v.drop_last()[i] by {}
    }
}

/// The store after a message: the record of its vehicle, component and name takes the
/// message and is seen again at `now_us`; a new record starts as seen at `now_us` and is then
/// counted once more (its counter starts at 2), as the store always updates the record it
/// finds or inserts.
pub open spec fn spec_store_update<M>(v: Seq<RecordView<M>>, system_id: u8, component_id: u8, name: Seq<char>, message: M, now_us: u64) -> Seq<RecordView<M>> {
    let p = record_position(v, system_id, component_id, name);
    if p < v.len() {
        let t = v[p].4;
        v.update(p, (system_id, component_id, name, message, Temporal {
            first_update_us: t.first_update_us,
            last_update_us: now_us,
            counter: ((t.counter + 1) % 0x1_0000_0000_0000_0000) as u64,
        }))
    } else {
        v.push((system_id, component_id, name, message, Temporal { first_update_us: now_us, last_update_us: now_us, counter: 2 }))
    }
}

/// The last message of each name from each component of each vehicle.
pub struct MessageStore<M> {
    records: Vec<MessageRecord<M>>,
}

impl<M> View for MessageStore<M> {
    type V = Seq<RecordView<M>>;

    closed spec fn view(&self) -> Seq<RecordView<M>> {
        self.records@.map_values(|r: MessageRecord<M>| (r.system_id, r.component_id, r.name@, r.message, r.time))
    }
}

impl<M> MessageStore<M> {
    /// An empty store.
    pub fn new() -> (s: Self)
        ensures
            s@ == Seq::<RecordView<M>>::empty(),
    {
        let s = MessageStore { records: Vec::new() };
        assert(s@ =~= Seq::<RecordView<M>>::empty());
        s
    }

    /// Records a message named `name` from `system_id`/`component_id` seen at `now_us`.
    pub fn update(&mut self, system_id: u8, component_id: u8, name: String, message: M, now_us: u64)
        ensures
            final(self)@ == spec_store_update(old(self)@, system_id, component_id, name@, message, now_us),
    {
        let ghost v = self@;
        proof {
            lemma_record_position(v, system_id, component_id, name@);
        }
        let mut i: usize = 0;
        while i < self.records.len()
            && !(self.records[i].system_id == system_id && self.records[i].component_id == component_id
                && str_eq(self.records[i].name.as_str(), name.as_str()))
            invariant
                0 <= i <= v.len(),
                v == self@,
                v.len() == self.records@.len(),
                forall|k: int| 0 <= k < i ==> !((#[trigger] v[k]).0 == system_id && v[k].1 == component_id && v[k].2 == name@),
                0 <= record_position(v, system_id, component_id, name@) <= v.len(),
                record_position(v, system_id, component_id, name@) < v.len() ==> {
                    let r = v[record_position(v, system_id, component_id, name@)];
                    r.0 == system_id && r.1 == component_id && r.2 == name@
                },
                forall|k: int| 0 <= k < record_position(v, system_id, component_id, name@)
                    ==> !((#[trigger] v[k]).0 == system_id && v[k].1 == component_id && v[k].2 == name@),
            decreases v.len() - i,
        {
            assert(v[i as int] == (self.records@[i as int].system_id, self.records@[i as int].component_id,
                self.records@[i as int].name@, self.records@[i as int].message, self.records@[i as int].time));
            i = i + 1;
        }
        if i < self.records.len() {
            assert(v[i as int] == (self.records@[i as int].system_id, self.records@[i as int].component_id,
                self.records@[i as int].name@, self.records@[i as int].message, self.records@[i as int].time));
            assert(i as int == record_position(v, system_id, component_id, name@));
            let mut record = self.records.remove(i);
            record.message = message;
            record.time.update(now_us);
            self.records.insert(i, record);
            proof {
                assert(self@ =~= spec_store_update(v, system_id, component_id, name@, message, now_us));
            }
        } else {
            let mut time = Temporal::new(now_us);
            time.update(now_us);
            self.records.push(MessageRecord { system_id, component_id, name, message, time });
            proof {
                assert(self@ =~= spec_store_update(v, system_id, component_id, name@, message, now_us));
            }
        }
    }

    /// The records, in the order their first messages came.
    pub fn records(&self) -> (r: &[MessageRecord<M>])
        ensures
            r@.len() == self@.len(),
            forall|i: int| 0 <= i < r@.len() ==> {
                let x = #[trigger] r@[i];
                self@[i] == (x.system_id, x.component_id, x.name@, x.message, x.time)
            },
    {
        self.records.as_slice()
    }
}

} // verus!
