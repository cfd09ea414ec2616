//! Field-presence tracking and validated finalization: the runtime semantics
//! of a synthesized builder, parameterized over field descriptors.
//!
//! A [`RecordBuilder`] holds, for an ordered list of field names, one slot per
//! field that is either absent or present with a value. Setters flip exactly
//! one slot to present (last write wins); [`RecordBuilder::build`] consumes
//! the builder and either returns every value in declaration order or fails
//! naming the first absent field.

use vstd::pervasive::VecAdditionalExecFns;
use vstd::prelude::*;
use vstd::string::StringExecFns;

use crate::schema::FieldDef;

verus! {

/// The slot sequence of a freshly created builder: every field absent.
pub open spec fn fresh_slots<V>(n: nat) -> Seq<Option<V>> {
    Seq::new(n, |i: int| None::<V>)
}

/// Every field's slot holds a value.
pub open spec fn all_present<V>(slots: Seq<Option<V>>) -> bool {
    forall|i: int| 0 <= i < slots.len() ==> slots[i] is Some
}

/// The values of a fully present slot sequence, in declaration order.
pub open spec fn extracted<V>(slots: Seq<Option<V>>) -> Seq<V> {
    Seq::new(slots.len(), |i: int| slots[i]->0)
}

/// The index of the first absent slot in declaration order, if any.
pub open spec fn first_missing<V>(slots: Seq<Option<V>>) -> Option<int>
    decreases slots.len(),
{
    if slots.len() == 0 {
        None
    } else {
        match first_missing(slots.drop_last()) {
            Some(i) => Some(i),
            None => if slots.last() is None {
                Some(slots.len() - 1)
            } else {
                None
            },
        }
    }
}

/// `first_missing` finds exactly the first absent slot: it returns `None`
/// precisely when every slot is present, and otherwise an absent index with
/// every earlier slot present.
pub proof fn lemma_first_missing_characterization<V>(slots: Seq<Option<V>>)
    ensures
        match first_missing(slots) {
            None => all_present(slots),
            Some(i) => 0 <= i < slots.len() && slots[i] is None && (forall|j: int|
                0 <= j < i ==> slots[j] is Some),
        },
    decreases slots.len(),
{
    if slots.len() > 0 {
        lemma_first_missing_characterization(slots.drop_last());
        match first_missing(slots.drop_last()) {
            Some(i) => {
                assert(slots.drop_last()[i] == slots[i]);
                assert(forall|j: int| 0 <= j < i ==> slots[j] == slots.drop_last()[j]);
            },
            None => {
                assert(forall|j: int|
                    0 <= j < slots.len() - 1 ==> slots[j] == slots.drop_last()[j]);
            },
        }
    }
}

/// The absent field that `first_missing` points at comes first in declaration
/// order: no absent slot lies before it.
pub proof fn lemma_first_missing_is_least<V>(slots: Seq<Option<V>>, j: int)
    requires
        0 <= j < slots.len(),
        slots[j] is None,
    ensures
        first_missing(slots) matches Some(i) && 0 <= i <= j && slots[i] is None && (forall|k: int|
            0 <= k < i ==> slots[k] is Some),
{
    lemma_first_missing_characterization(slots);
}

/// Round-trip completeness: when every field has been set via its setter
/// (so, last write winning, every slot holds the value supplied for it),
/// finalization succeeds and yields exactly the supplied values, in the same
/// field-to-value mapping as the input.
pub proof fn lemma_round_trip<V>(slots: Seq<Option<V>>, vals: Seq<V>)
    requires
        slots.len() == vals.len(),
        forall|i: int| 0 <= i < slots.len() ==> slots[i] == Some(vals[i]),
    ensures
        all_present(slots),
        extracted(slots) == vals,
        first_missing(slots) is None,
{
    assert(extracted(slots) =~= vals);
    lemma_first_missing_characterization(slots);
    if first_missing(slots) is Some {
        let i = first_missing(slots)->0;
        assert(slots[i] is Some);
    }
}

/// Idempotent overwrite: setting the same field twice leaves only the last
/// value in effect — the slots after two writes to one field equal the slots
/// after a single write of the last value, so finalization reflects the last
/// write.
pub proof fn lemma_last_write_wins<V>(slots: Seq<Option<V>>, i: int, v1: V, v2: V)
    requires
        0 <= i < slots.len(),
    ensures
        slots.update(i, Some(v1)).update(i, Some(v2)) == slots.update(i, Some(v2)),
{
    assert(slots.update(i, Some(v1)).update(i, Some(v2)) =~= slots.update(i, Some(v2)));
}

/// Absence of cross-field contamination: a setter for the field at `i`
/// leaves every other field's slot — presence state and value alike —
/// exactly as it was.
pub proof fn lemma_setter_isolated<V>(slots: Seq<Option<V>>, i: int, v: V, j: int)
    requires
        0 <= i < slots.len(),
        0 <= j < slots.len(),
        j != i,
    ensures
        slots.update(i, Some(v))[j] == slots[j],
{
}

/// The slot state after a run of setter calls: each write stores a present
/// value at its field's index, later writes applied after earlier ones.
pub open spec fn apply_writes<V>(slots: Seq<Option<V>>, writes: Seq<(int, V)>) -> Seq<Option<V>>
    decreases writes.len(),
{
    if writes.len() == 0 {
        slots
    } else {
        apply_writes(slots, writes.drop_last()).update(writes.last().0, Some(writes.last().1))
    }
}

/// The value of the last write that targeted field `i`, if any.
pub open spec fn last_write<V>(writes: Seq<(int, V)>, i: int) -> Option<V>
    decreases writes.len(),
{
    if writes.len() == 0 {
        None
    } else if writes.last().0 == i {
        Some(writes.last().1)
    } else {
        last_write(writes.drop_last(), i)
    }
}

/// A run of in-range setter calls never changes the number of fields.
pub proof fn lemma_apply_writes_len<V>(slots: Seq<Option<V>>, writes: Seq<(int, V)>)
    requires
        forall|k: int| 0 <= k < writes.len() ==> 0 <= (#[trigger] writes[k]).0 < slots.len(),
    ensures
        apply_writes(slots, writes).len() == slots.len(),
    decreases writes.len(),
{
    if writes.len() > 0 {
        assert(forall|k: int|
            0 <= k < writes.drop_last().len() ==> (#[trigger] writes.drop_last()[k]) == writes[k]);
        lemma_apply_writes_len(slots, writes.drop_last());
    }
}

/// After any run of in-range setter calls, a field's slot holds the value of
/// the last write that targeted it, and is untouched when none did.
pub proof fn lemma_apply_writes_at<V>(slots: Seq<Option<V>>, writes: Seq<(int, V)>, i: int)
    requires
        0 <= i < slots.len(),
        forall|k: int| 0 <= k < writes.len() ==> 0 <= (#[trigger] writes[k]).0 < slots.len(),
    ensures
        apply_writes(slots, writes).len() == slots.len(),
        apply_writes(slots, writes)[i] == if last_write(writes, i) is Some {
            last_write(writes, i)
        } else {
            slots[i]
        },
    decreases writes.len(),
{
    if writes.len() > 0 {
        assert(forall|k: int|
            0 <= k < writes.drop_last().len() ==> (#[trigger] writes.drop_last()[k]) == writes[k]);
        lemma_apply_writes_at(slots, writes.drop_last(), i);
    }
}

/// Whether some write targets field `i`.
pub open spec fn field_written<V>(writes: Seq<(int, V)>, i: int) -> bool {
    exists|k: int| 0 <= k < writes.len() && (#[trigger] writes[k]).0 == i
}

/// A field that some write targeted has a last write.
pub proof fn lemma_written_field_has_last_write<V>(writes: Seq<(int, V)>, i: int)
    requires
        field_written(writes, i),
    ensures
        last_write(writes, i) is Some,
    decreases writes.len(),
{
    if writes.last().0 != i {
        let k = choose|k: int| 0 <= k < writes.len() && (#[trigger] writes[k]).0 == i;
        assert(writes.drop_last()[k] == writes[k]);
        lemma_written_field_has_last_write(writes.drop_last(), i);
    }
}

/// Round-trip completeness over any call order: starting from a fresh
/// builder, if every field is targeted by at least one in-range setter call,
/// finalization succeeds, and each field carries the value of the last call
/// that targeted it — for fields set exactly once, exactly the value
/// supplied.
pub proof fn lemma_round_trip_any_order<V>(n: nat, writes: Seq<(int, V)>)
    requires
        forall|k: int| 0 <= k < writes.len() ==> 0 <= (#[trigger] writes[k]).0 < n,
        forall|i: int| 0 <= i < n ==> #[trigger] field_written(writes, i),
    ensures
        apply_writes(fresh_slots::<V>(n), writes).len() == n,
        all_present(apply_writes(fresh_slots::<V>(n), writes)),
        first_missing(apply_writes(fresh_slots::<V>(n), writes)) is None,
        forall|i: int|
            0 <= i < n ==> apply_writes(fresh_slots::<V>(n), writes)[i] == last_write(writes, i),
{
    let slots = apply_writes(fresh_slots::<V>(n), writes);
    lemma_apply_writes_len(fresh_slots::<V>(n), writes);
    assert forall|i: int| 0 <= i < n implies slots[i] == last_write(writes, i) && slots[i]
        is Some by {
        lemma_apply_writes_at(fresh_slots::<V>(n), writes, i);
        lemma_written_field_has_last_write(writes, i);
    }
    lemma_first_missing_characterization(slots);
    if first_missing(slots) is Some {
        let i = first_missing(slots)->0;
        assert(slots[i] is Some);
    }
}

/// An error value returned by a failed finalization, naming the field that
/// was never set.
#[derive(Debug, PartialEq)]
pub enum BuildError {
    FieldRequired(String),
}

impl BuildError {
    /// The name of the field the error reports.
    pub open spec fn spec_field(self) -> Seq<char> {
        match self {
            BuildError::FieldRequired(name) => name@,
        }
    }

    /// The textual rendering of the error: the field's name followed by
    /// ` field is required`.
    pub open spec fn spec_render(self) -> Seq<char> {
        self.spec_field() + " field is required"@
    }

    /// The name of the field the error reports.
    pub fn field(&self) -> (r: &String)
        ensures
            r@ == self.spec_field(),
    {
        match self {
            BuildError::FieldRequired(name) => name,
        }
    }

    /// Renders the error as `<field> field is required`.
    pub fn render(&self) -> (r: String)
        ensures
            r@ == self.spec_render(),
    {
        match self {
            BuildError::FieldRequired(name) => {
                let mut s = name.clone();
                s.append(" field is required");
                s
            },
        }
    }
}

/// A builder over an ordered list of named fields, each tracked as absent or
/// present with a value of type `V`.
pub struct RecordBuilder<V> {
    names: Vec<String>,
    slots: Vec<Option<V>>,
}

impl<V> RecordBuilder<V> {
    /// The field names, in declaration order.
    pub closed spec fn spec_names(self) -> Seq<Seq<char>> {
        self.names@.map_values(|s: String| s@)
    }

    /// The per-field slots, in declaration order.
    pub closed spec fn spec_slots(self) -> Seq<Option<V>> {
        self.slots@
    }

    /// One slot per declared field.
    pub open spec fn wf(self) -> bool {
        self.spec_names().len() == self.spec_slots().len()
    }

    /// The factory: a fresh builder over the given field names, every field
    /// absent.
    pub fn new(names: Vec<String>) -> (r: Self)
        ensures
            r.wf(),
            r.spec_names() == names@.map_values(|s: String| s@),
            r.spec_slots() == fresh_slots::<V>(names@.len() as nat),
    {
        let n = names.len();
        let mut slots: Vec<Option<V>> = Vec::new();
        let mut i: usize = 0;
        while i < n
            invariant
                i <= n,
                slots@ =~= fresh_slots::<V>(i as nat),
            decreases n - i,
        {
            slots.push(None);
            i += 1;
        }
        proof {
            assert(slots@ =~= fresh_slots::<V>(n as nat));
        }
        RecordBuilder { names, slots }
    }

    /// The number of fields.
    pub fn field_count(&self) -> (n: usize)
        ensures
            n == self.spec_slots().len(),
    {
        self.slots.len()
    }

    /// Whether the field at `index` is in the present state.
    pub fn is_present(&self, index: usize) -> (b: bool)
        requires
            index < self.spec_slots().len(),
        ensures
            b == (self.spec_slots()[index as int] is Some),
    {
        self.slots[index].is_some()
    }

    /// The setter: stores `value` as the present value of the field at
    /// `index` and hands the builder back for chaining. Exactly one slot
    /// changes; every other field's state and value are untouched, and the
    /// field names are untouched.
    pub fn set(self, index: usize, value: V) -> (r: Self)
        requires
            index < self.spec_slots().len(),
        ensures
            r.spec_names() == self.spec_names(),
            r.spec_slots() == self.spec_slots().update(index as int, Some(value)),
    {
        let mut b = self;
        b.slots.set(index, Some(value));
        b
    }

    /// The factory for a record schema: a fresh builder over the schema's
    /// field names, in declaration order, every field absent.
    pub fn for_schema(fields: &Vec<FieldDef>) -> (r: Self)
        ensures
            r.wf(),
            r.spec_names() == fields@.map_values(|f: FieldDef| f.name@),
            r.spec_slots() == fresh_slots::<V>(fields@.len() as nat),
    {
        let mut names: Vec<String> = Vec::new();
        let n = fields.len();
        let mut i: usize = 0;
        while i < n
            invariant
                i <= n,
                n == fields@.len(),
                names@.len() == i,
                forall|k: int| 0 <= k < i ==> names@[k]@ == fields@[k].name@,
            decreases n - i,
        {
            names.push(fields[i].name.clone());
            i += 1;
        }
        proof {
            assert(names@.map_values(|s: String| s@) =~= fields@.map_values(
                |f: FieldDef| f.name@,
            ));
        }
        RecordBuilder::new(names)
    }

    /// Finalization: consumes the builder; succeeds with every field's value
    /// in declaration order exactly when every field is present, and
    /// otherwise fails naming the first absent field in declaration order.
    pub fn build(self) -> (r: Result<Vec<V>, BuildError>)
        requires
            self.wf(),
        ensures
            r is Ok <==> all_present(self.spec_slots()),
            r is Ok ==> r->Ok_0@ == extracted(self.spec_slots()),
            r is Err ==> (first_missing(self.spec_slots()) matches Some(i)
                && r->Err_0.spec_field() == self.spec_names()[i]),
    {
        let ghost orig = self.slots@;
        let n = self.slots.len();
        let mut i: usize = 0;
        while i < n
            invariant
                i <= n,
                n == self.spec_slots().len(),
                self.wf(),
                orig == self.spec_slots(),
                forall|j: int| 0 <= j < i ==> orig[j] is Some,
            decreases n - i,
        {
            if self.slots[i].is_none() {
                proof {
                    lemma_first_missing_is_least(orig, i as int);
                    assert(first_missing(orig) matches Some(k) && k == i as int) by {
                        let k = first_missing(orig)->0;
                        if k < i as int {
                            assert(orig[k] is Some);
                        }
                    }
                }
                return Err(BuildError::FieldRequired(self.names[i].clone()));
            }
            i += 1;
        }
        proof {
            lemma_first_missing_characterization(orig);
            assert(all_present(orig));
        }
        let mut slots = self.slots;
        let mut vals: Vec<V> = Vec::new();
        let mut taken: usize = 0;
        while taken < n
            invariant
                taken <= n,
                n == orig.len(),
                all_present(orig),
                slots@ =~= orig.skip(taken as int),
                vals@ =~= extracted(orig).take(taken as int),
            decreases n - taken,
        {
            let v = slots.remove(0);
            proof {
                assert(orig.skip(taken as int)[0] == orig[taken as int]);
                assert(orig.skip(taken as int).remove(0) =~= orig.skip(taken as int + 1));
                assert(extracted(orig).take(taken as int).push(orig[taken as int]->0)
                    =~= extracted(orig).take(taken as int + 1));
            }
            vals.push(v.unwrap());
            taken += 1;
        }
        proof {
            assert(vals@ =~= extracted(orig));
        }
        Ok(vals)
    }
}

} // verus!
