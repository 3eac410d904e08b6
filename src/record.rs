//! An executable model of the code the generators emit: a record whose fields
//! are held by position, its constructor and accessors, and its builder.
use vstd::prelude::*;

verus! {

/// An instance of a struct, its field values in declaration order.
pub struct Record<V> {
    values: Vec<V>,
}

impl<V> View for Record<V> {
    type V = Seq<V>;

    closed spec fn view(&self) -> Seq<V> {
        self.values@
    }
}

impl<V> Record<V> {
    /// The positional constructor: field `i` holds `values[i]`.
    pub fn new(values: Vec<V>) -> (r: Record<V>)
        ensures
            r@ == values@,
    {
        Record { values }
    }

    /// The number of fields.
    pub fn len(&self) -> (n: usize)
        ensures
            n == self@.len(),
    {
        self.values.len()
    }

    /// The accessor of field `i`: a read-only view of the value it holds.
    pub fn get(&self, i: usize) -> (r: &V)
        requires
            i < self@.len(),
        ensures
            *r == self@[i as int],
    {
        &self.values[i]
    }

    /// Stores `v` in field `i`.
    pub fn set(&mut self, i: usize, v: V)
        requires
            i < old(self)@.len(),
        ensures
            final(self)@ == old(self)@.update(i as int, v),
    {
        self.values.set(i, v);
    }

    /// The field values, in declaration order.
    pub fn into_values(self) -> (r: Vec<V>)
        ensures
            r@ == self@,
    {
        self.values
    }
}

/// A required field was never set before `build`.
pub struct MissingField {
    /// The position of the first such field.
    pub index: usize,
}

/// `n` slots, none of them set.
pub open spec fn unset<V>(n: nat) -> Seq<Option<V>> {
    Seq::new(n, |i: int| None::<V>)
}

/// Field `i` was neither set nor has a default.
pub open spec fn is_missing<V>(slots: Seq<Option<V>>, defaults: Seq<Option<V>>, i: int) -> bool {
    slots[i] is None && defaults[i] is None
}

/// Field `i` is missing, and no field before it is.
pub open spec fn is_first_missing<V>(
    slots: Seq<Option<V>>,
    defaults: Seq<Option<V>>,
    i: int,
) -> bool {
    &&& 0 <= i < slots.len()
    &&& is_missing(slots, defaults, i)
    &&& forall|j: int| 0 <= j < i ==> !is_missing(slots, defaults, j)
}

/// The value that `build` takes for field `i`: the one set, else the default.
pub open spec fn resolved<V>(slots: Seq<Option<V>>, defaults: Seq<Option<V>>, i: int) -> V {
    match slots[i] {
        Some(v) => v,
        None => defaults[i]->Some_0,
    }
}

/// What `build` yields: the first missing field's position if any field is
/// missing, else every field's resolved value.
pub open spec fn build_outcome<V>(slots: Seq<Option<V>>, defaults: Seq<Option<V>>) -> Result<
    Seq<V>,
    int,
> {
    if exists|i: int| 0 <= i < slots.len() && is_missing(slots, defaults, i) {
        Err(choose|i: int| is_first_missing(slots, defaults, i))
    } else {
        Ok(Seq::new(slots.len(), |i: int| resolved(slots, defaults, i)))
    }
}

/// What a result of `build` says: the values built, or the missing position.
pub open spec fn build_view<V>(r: Result<Record<V>, MissingField>) -> Result<Seq<V>, int> {
    match r {
        Ok(rec) => Ok(rec@),
        Err(e) => Err(e.index as int),
    }
}

/// Staged construction of a [`Record`]: one optional slot per field.
pub struct RecordBuilder<V> {
    slots: Vec<Option<V>>,
    defaults: Vec<Option<V>>,
}

impl<V> RecordBuilder<V> {
    /// The value set for each field so far.
    pub closed spec fn slots(&self) -> Seq<Option<V>> {
        self.slots@
    }

    /// The default of each field, `None` for a required one.
    pub closed spec fn defaults(&self) -> Seq<Option<V>> {
        self.defaults@
    }

    /// One slot per field, and one default per field.
    pub closed spec fn wf(&self) -> bool {
        self.slots@.len() == self.defaults@.len()
    }

    /// A builder for fields with the given defaults, nothing set.
    pub fn new(defaults: Vec<Option<V>>) -> (r: RecordBuilder<V>)
        ensures
            r.wf(),
            r.defaults() == defaults@,
            r.slots() == unset::<V>(defaults@.len()),
    {
        let mut slots: Vec<Option<V>> = Vec::new();
        let mut i: usize = 0;
        while i < defaults.len()
            invariant
                i <= defaults@.len(),
                slots@ == unset::<V>(i as nat),
            decreases defaults@.len() - i,
        {
            slots.push(None);
            i = i + 1;
            assert(slots@ =~= unset::<V>(i as nat));
        }
        RecordBuilder { slots, defaults }
    }

    /// A builder for `n` fields, all required, nothing set.
    pub fn required(n: usize) -> (r: RecordBuilder<V>)
        ensures
            r.wf(),
            r.defaults() == unset::<V>(n as nat),
            r.slots() == unset::<V>(n as nat),
    {
        let mut defaults: Vec<Option<V>> = Vec::new();
        let mut i: usize = 0;
        while i < n
            invariant
                i <= n,
                defaults@ == unset::<V>(i as nat),
            decreases n - i,
        {
            defaults.push(None);
            i = i + 1;
            assert(defaults@ =~= unset::<V>(i as nat));
        }
        RecordBuilder::new(defaults)
    }

    /// The number of fields.
    pub fn len(&self) -> (n: usize)
        ensures
            n == self.slots().len(),
    {
        self.slots.len()
    }

    /// The fluent setter of field `i`.
    pub fn set(self, i: usize, v: V) -> (r: RecordBuilder<V>)
        requires
            self.wf(),
            i < self.slots().len(),
        ensures
            r.wf(),
            r.slots() == self.slots().update(i as int, Some(v)),
            r.defaults() == self.defaults(),
    {
        let mut b = self;
        b.slots.set(i, Some(v));
        b
    }

    /// Assembles the record, or fails on the first field that is neither set
    /// nor defaulted; a failure carries no part of the record.
    #[verifier::loop_isolation(false)]
    pub fn build(self) -> (r: Result<Record<V>, MissingField>)
        requires
            self.wf(),
        ensures
            build_view(r) == build_outcome(self.slots(), self.defaults()),
    {
        let ghost s0 = self.slots@;
        let ghost d0 = self.defaults@;
        let RecordBuilder { mut slots, mut defaults } = self;
        let n = slots.len();
        let mut values: Vec<V> = Vec::new();
        let mut i: usize = 0;
        while i < n
            invariant
                n == s0.len(),
                n == d0.len(),
                i <= n,
                slots@ == s0.skip(i as int),
                defaults@ == d0.skip(i as int),
                values@.len() == i,
                forall|j: int| 0 <= j < i ==> !is_missing(s0, d0, j),
                forall|j: int| 0 <= j < i ==> #[trigger] values@[j] == resolved(s0, d0, j),
            decreases n - i,
        {
            assert(slots@[0] == s0[i as int]);
            assert(defaults@[0] == d0[i as int]);
            let s = slots.remove(0);
            let d = defaults.remove(0);
            assert(slots@ =~= s0.skip(i + 1));
            assert(defaults@ =~= d0.skip(i + 1));
            match s {
                Some(v) => values.push(v),
                None => match d {
                    Some(v) => values.push(v),
                    None => {
                        assert(is_first_missing(s0, d0, i as int));
                        let ghost k = choose|k: int| is_first_missing(s0, d0, k);
                        assert(k == i as int) by {
                            if k < i {
                                assert(!is_missing(s0, d0, k));
                            } else if k > i {
                                assert(!is_missing(s0, d0, i as int));
                            }
                        }
                        return Err(MissingField { index: i });
                    },
                },
            }
            i = i + 1;
        }
        let r = Record { values };
        assert(r@ =~= Seq::new(s0.len(), |j: int| resolved(s0, d0, j)));
        Ok(r)
    }
}

} // verus!
