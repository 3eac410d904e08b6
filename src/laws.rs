//! Properties that relate several operations of the library.
use vstd::prelude::*;

use crate::builder::builder_outcome;
use crate::descriptor::{outcome_view, DeriveError, TypeDescriptor};
use crate::getters::getters_outcome;
use crate::new::new_outcome;
use crate::record::{build_outcome, is_first_missing, is_missing, resolved, unset, Record};

verus! {

/// The slots after calling the setters of the fields in `order`, one after
/// the other, field `order[k]` receiving `values[order[k]]`.
pub open spec fn apply_setters<V>(
    slots: Seq<Option<V>>,
    order: Seq<int>,
    values: Seq<V>,
) -> Seq<Option<V>>
    decreases order.len(),
{
    if order.len() == 0 {
        slots
    } else {
        apply_setters(slots, order.drop_last(), values).update(
            order.last(),
            Some(values[order.last()]),
        )
    }
}

proof fn lemma_setters_fill<V>(n: nat, order: Seq<int>, values: Seq<V>)
    requires
        values.len() == n,
        forall|k: int| 0 <= k < order.len() ==> 0 <= #[trigger] order[k] < n,
    ensures
        apply_setters(unset::<V>(n), order, values).len() == n,
        forall|j: int|
            0 <= j < n ==> #[trigger] apply_setters(unset::<V>(n), order, values)[j]
                == if order.contains(j) {
                Some(values[j])
            } else {
                None
            },
    decreases order.len(),
{
    let empty = unset::<V>(n);
    if order.len() > 0 {
        let front = order.drop_last();
        lemma_setters_fill(n, front, values);
        let s = apply_setters(empty, order, values);
        assert forall|j: int| 0 <= j < n implies #[trigger] s[j] == if order.contains(j) {
            Some(values[j])
        } else {
            None
        } by {
            if front.contains(j) {
                let k = choose|k: int| 0 <= k < front.len() && front[k] == j;
                assert(order[k] == j);
            }
            if order.contains(j) && j != order.last() {
                let k = choose|k: int| 0 <= k < order.len() && order[k] == j;
                assert(front[k] == j);
            }
            if j == order.last() {
                assert(order[order.len() - 1] == j);
            }
        }
    }
}

/// Of the executable model in `record`: calling `RecordBuilder::set` for every
/// field exactly once, in any order, and then `RecordBuilder::build` succeeds
/// and yields exactly the values that `Record::new(values)` holds, whatever the
/// fields' defaults. This is proved of `RecordBuilder`, not of the source text
/// that `derive_builder` emits.
pub proof fn builder_in_any_order_matches_constructor<V>(
    values: Seq<V>,
    defaults: Seq<Option<V>>,
    order: Seq<int>,
)
    requires
        defaults.len() == values.len(),
        order.no_duplicates(),
        forall|k: int| 0 <= k < order.len() ==> 0 <= #[trigger] order[k] < values.len(),
        forall|j: int| 0 <= j < values.len() ==> order.contains(j),
    ensures
        build_outcome(
            apply_setters(unset::<V>(values.len()), order, values),
            defaults,
        ) == Ok::<Seq<V>, int>(values),
{
    let n = values.len();
    lemma_setters_fill(n, order, values);
    let s = apply_setters(unset::<V>(n), order, values);
    assert forall|j: int| 0 <= j < n implies #[trigger] s[j] == Some(values[j]) by {
        assert(order.contains(j));
    }
    assert(!exists|i: int| 0 <= i < s.len() && is_missing(s, defaults, i));
    assert(Seq::new(s.len(), |i: int| resolved(s, defaults, i)) =~= values);
}

/// Of the executable model in `record`: when some field was neither set nor
/// has a default, `RecordBuilder::build` fails, naming the first such field,
/// and yields no record. This is proved of `RecordBuilder`, not of the source
/// text that `derive_builder` emits.
pub proof fn omitted_field_fails<V>(slots: Seq<Option<V>>, defaults: Seq<Option<V>>, i: int)
    requires
        slots.len() == defaults.len(),
        0 <= i < slots.len(),
        slots[i] is None,
        defaults[i] is None,
    ensures
        build_outcome(slots, defaults) matches Err(k) && is_first_missing(slots, defaults, k)
            && k <= i,
{
    lemma_first_missing_exists(slots, defaults, i);
    let k = choose|k: int| is_first_missing(slots, defaults, k);
    if k > i {
        assert(!is_missing(slots, defaults, i));
    }
}

proof fn lemma_first_missing_exists<V>(slots: Seq<Option<V>>, defaults: Seq<Option<V>>, i: int)
    requires
        0 <= i < slots.len(),
        is_missing(slots, defaults, i),
    ensures
        exists|k: int| is_first_missing(slots, defaults, k),
    decreases i,
{
    if exists|j: int| 0 <= j < i && is_missing(slots, defaults, j) {
        let j = choose|j: int| 0 <= j < i && is_missing(slots, defaults, j);
        lemma_first_missing_exists(slots, defaults, j);
    } else {
        assert(is_first_missing(slots, defaults, i));
    }
}

/// Of the executable model in `record`: after `Record::set` stores `v` in
/// field `i`, `Record::get` of field `i` reads `v`, and every other field reads
/// what it read before. This is proved of `Record`, not of the source text
/// that `derive_getters` emits.
pub proof fn read_your_write<V>(before: Record<V>, after: Record<V>, i: int, v: V)
    requires
        0 <= i < before@.len(),
        after@ == before@.update(i, v),
    ensures
        after@.len() == before@.len(),
        after@[i] == v,
        forall|j: int| 0 <= j < before@.len() && j != i ==> after@[j] == before@[j],
{
}

/// Each generator is a function of the descriptor's model alone: two runs on
/// descriptors with the same model yield the same text, or the same refusal.
pub proof fn generation_is_deterministic(d1: TypeDescriptor, d2: TypeDescriptor)
    requires
        d1@ == d2@,
    ensures
        forall|r1: Result<String, DeriveError>, r2: Result<String, DeriveError>|
            outcome_view(r1) == new_outcome(d1@) && outcome_view(r2) == new_outcome(d2@)
                ==> outcome_view(r1) == outcome_view(r2),
        forall|r1: Result<String, DeriveError>, r2: Result<String, DeriveError>|
            outcome_view(r1) == getters_outcome(d1@) && outcome_view(r2) == getters_outcome(d2@)
                ==> outcome_view(r1) == outcome_view(r2),
        forall|r1: Result<String, DeriveError>, r2: Result<String, DeriveError>|
            outcome_view(r1) == builder_outcome(d1@) && outcome_view(r2) == builder_outcome(d2@)
                ==> outcome_view(r1) == outcome_view(r2),
{
}

} // verus!
