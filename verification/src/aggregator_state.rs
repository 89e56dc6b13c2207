//! The state of a group-by on a short fixed-width key (one or two bytes):
//! a table with a slot for every possible key, which tells whether the key
//! was seen and where its aggregate states are kept.
use vstd::prelude::*;

verus! {

/// The slot of a key: the key, whether it was seen, and the address of its
/// aggregate states.
#[derive(PartialEq, Eq, Structural, Clone, Copy, Debug)]
pub struct ShortFixedKeysStateEntity {
    pub key: u16,
    pub fill: bool,
    pub place: usize,
}

/// The number of slots in use.
pub open spec fn count_filled(s: Seq<ShortFixedKeysStateEntity>) -> nat
    decreases s.len(),
{
    if s.len() == 0 {
        0
    } else {
        count_filled(s.drop_last()) + if s.last().fill { 1nat } else { 0nat }
    }
}

proof fn lemma_count_filled_update(s: Seq<ShortFixedKeysStateEntity>, i: int, e: ShortFixedKeysStateEntity)
    requires
        0 <= i < s.len(),
    ensures
        count_filled(s.update(i, e)) + (if s[i].fill { 1int } else { 0int })
            == count_filled(s) + (if e.fill { 1int } else { 0int }),
    decreases s.len(),
{
    if i < s.len() - 1 {
        lemma_count_filled_update(s.drop_last(), i, e);
        assert(s.update(i, e).drop_last() =~= s.drop_last().update(i, e));
    } else {
        assert(s.update(i, e).drop_last() =~= s.drop_last());
    }
}

proof fn lemma_count_filled_le(s: Seq<ShortFixedKeysStateEntity>)
    ensures
        count_filled(s) <= s.len(),
    decreases s.len(),
{
    if s.len() > 0 {
        lemma_count_filled_le(s.drop_last());
    }
}

/// The slots of every key below a bound, and how many are in use.
#[derive(Debug)]
pub struct ShortFixedKeysAggregatorState {
    entities: Vec<ShortFixedKeysStateEntity>,
    size: usize,
    two_level_flag: bool,
}

impl ShortFixedKeysAggregatorState {
    /// The slots.
    pub closed spec fn slots(&self) -> Seq<ShortFixedKeysStateEntity> {
        self.entities@
    }

    /// Whether the state was asked to become two-level.
    pub closed spec fn two_level(&self) -> bool {
        self.two_level_flag
    }

    /// The count of slots in use is the count kept.
    pub closed spec fn wf(&self) -> bool {
        self.size == count_filled(self.entities@)
    }

    /// A table of `max_size` empty slots.
    pub fn create(max_size: usize) -> (r: ShortFixedKeysAggregatorState)
        ensures
            r.wf(),
            r.slots().len() == max_size,
            forall|i: int| 0 <= i < max_size ==> #[trigger] r.slots()[i] == (ShortFixedKeysStateEntity {
                key: 0,
                fill: false,
                place: 0,
            }),
            !r.two_level(),
    {
        let mut entities: Vec<ShortFixedKeysStateEntity> = Vec::new();
        let mut i: usize = 0;
        while i < max_size
            invariant
                i <= max_size,
                entities@.len() == i,
                count_filled(entities@) == 0,
                forall|k: int| 0 <= k < i ==> #[trigger] entities@[k] == (ShortFixedKeysStateEntity {
                    key: 0,
                    fill: false,
                    place: 0,
                }),
            decreases max_size - i,
        {
            let ghost before = entities@;
            entities.push(ShortFixedKeysStateEntity { key: 0, fill: false, place: 0 });
            assert(entities@.drop_last() =~= before);
            i = i + 1;
        }
        ShortFixedKeysAggregatorState { entities, size: 0, two_level_flag: false }
    }

    /// The number of keys seen.
    pub fn len(&self) -> (r: usize)
        requires
            self.wf(),
        ensures
            r == count_filled(self.slots()),
    {
        self.size
    }

    /// The slot of a key, by its position, marking the key as seen;
    /// `inserted` tells whether it was seen for the first time.
    pub fn entity(&mut self, key: u16, inserted: &mut bool) -> (r: usize)
        requires
            old(self).wf(),
            (key as usize) < old(self).slots().len(),
        ensures
            final(self).wf(),
            r == key as usize,
            *final(inserted) == !old(self).slots()[key as int].fill,
            final(self).two_level() == old(self).two_level(),
            final(self).slots() == entity_slots(old(self).slots(), key),
    {
        let index = key as usize;
        let value = self.entities[index];
        if value.fill {
            *inserted = false;
            return index;
        }
        *inserted = true;
        let e = ShortFixedKeysStateEntity { key, fill: true, place: value.place };
        proof {
            lemma_count_filled_update(self.entities@, index as int, e);
            lemma_count_filled_le(self.entities@);
        }
        self.entities.set(index, e);
        let n = self.entities.len();
        proof {
            lemma_count_filled_le(self.entities@);
        }
        assert(self.size + 1 <= n);
        self.size = self.size + 1;
        index
    }

    /// Records where the aggregate states of a slot are kept.
    pub fn set_place(&mut self, index: usize, place: usize)
        requires
            old(self).wf(),
            index < old(self).slots().len(),
        ensures
            final(self).wf(),
            final(self).two_level() == old(self).two_level(),
            final(self).slots() == old(self).slots().update(index as int, ShortFixedKeysStateEntity {
                place,
                ..old(self).slots()[index as int]
            }),
    {
        let mut e = self.entities[index];
        e.place = place;
        proof {
            lemma_count_filled_update(self.entities@, index as int, e);
        }
        self.entities.set(index, e);
    }

    /// The slot at a position.
    pub fn slot(&self, index: usize) -> (r: ShortFixedKeysStateEntity)
        requires
            index < self.slots().len(),
        ensures
            r == self.slots()[index as int],
    {
        self.entities[index]
    }

    /// Whether the state was asked to become two-level.
    pub fn is_two_level(&self) -> (r: bool)
        ensures
            r == self.two_level(),
    {
        self.two_level_flag
    }

    /// Asks the state to become two-level; its slots stay as they are.
    pub fn convert_to_two_level(&mut self)
        ensures
            final(self).two_level(),
            final(self).slots() == old(self).slots(),
            final(self).wf() == old(self).wf(),
    {
        self.two_level_flag = true;
    }
}

/// The slots after a key is looked up: its slot marked as seen, holding
/// the key, if it was not already.
pub open spec fn entity_slots(s: Seq<ShortFixedKeysStateEntity>, key: u16) -> Seq<ShortFixedKeysStateEntity> {
    if s[key as int].fill {
        s
    } else {
        s.update(key as int, ShortFixedKeysStateEntity { key, fill: true, place: s[key as int].place })
    }
}

/// Looking a key up again changes nothing and reports no insertion: once
/// seen, a key's slot stays as it is.
pub proof fn law_entity_idempotent(slots: Seq<ShortFixedKeysStateEntity>, key: u16)
    requires
        (key as int) < slots.len(),
    ensures
        entity_slots(slots, key)[key as int].fill,
        entity_slots(entity_slots(slots, key), key) == entity_slots(slots, key),
{
}

} // verus!
