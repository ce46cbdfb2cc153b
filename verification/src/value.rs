//! Structured values: the canonical form of everything that crosses the
//! bridge towards the shell.

use crate::assoc::{keys_distinct, map_of};
use vstd::prelude::*;

verus! {

/// Whether a 64-bit pattern, read as an IEEE 754 double-precision number,
/// denotes a finite number: its eleven exponent bits are not all set.
pub open spec fn spec_is_finite_bits(bits: u64) -> bool {
    (bits >> 52) & 0x7ff != 0x7ff
}

/// Decides [`spec_is_finite_bits`].
pub fn is_finite_bits(bits: u64) -> (finite: bool)
    ensures
        finite == spec_is_finite_bits(bits),
{
    (bits >> 52) & 0x7ff != 0x7ff
}

/// A number of a structured value.
#[derive(Clone, Copy, Debug, PartialEq, Eq)]
pub enum Number {
    /// A signed integer.
    Int(i64),
    /// The bit pattern of a double-precision number.
    Float(u64),
}

/// The mathematical content of a [`Number`].
pub enum NumberModel {
    Int(int),
    Float(u64),
}

impl View for Number {
    type V = NumberModel;

    open spec fn view(&self) -> NumberModel {
        match self {
            Number::Int(i) => NumberModel::Int(*i as int),
            Number::Float(bits) => NumberModel::Float(*bits),
        }
    }
}

impl NumberModel {
    /// A float is finite; an integer is always in order.
    pub open spec fn wf(self) -> bool {
        match self {
            NumberModel::Int(_) => true,
            NumberModel::Float(bits) => spec_is_finite_bits(bits),
        }
    }
}

/// A structured value: null, a boolean, a number, a string, an ordered list,
/// or a map from strings to structured values.
#[derive(Debug, PartialEq, Eq)]
pub enum StructuredValue {
    Null,
    Bool(bool),
    Number(Number),
    String(String),
    List(Vec<StructuredValue>),
    /// The entries of a map, each key at most once.
    Object(Vec<(String, StructuredValue)>),
}

/// The mathematical content of a [`StructuredValue`].
pub enum ValueModel {
    Null,
    Bool(bool),
    Number(NumberModel),
    Text(Seq<char>),
    List(Seq<ValueModel>),
    Object(Map<Seq<char>, ValueModel>),
}

/// The map that the first `n` entries describe, a later entry replacing an
/// earlier one under the same key.
pub open spec fn entries_model(entries: Seq<(String, StructuredValue)>, n: nat) -> Map<
    Seq<char>,
    ValueModel,
>
    decreases entries, n,
{
    if n == 0 || n > entries.len() {
        Map::empty()
    } else {
        entries_model(entries, (n - 1) as nat).insert(
            entries[n - 1].0@,
            entries[n - 1].1.view(),
        )
    }
}

/// The views of the first `n` values, in order.
pub open spec fn items_model(items: Seq<StructuredValue>, n: nat) -> Seq<ValueModel>
    decreases items, n,
{
    if n == 0 || n > items.len() {
        Seq::empty()
    } else {
        items_model(items, (n - 1) as nat).push(items[n - 1].view())
    }
}

impl View for StructuredValue {
    type V = ValueModel;

    open spec fn view(&self) -> ValueModel
        decreases self, 0nat,
    {
        match self {
            StructuredValue::Null => ValueModel::Null,
            StructuredValue::Bool(b) => ValueModel::Bool(*b),
            StructuredValue::Number(n) => ValueModel::Number(n@),
            StructuredValue::String(s) => ValueModel::Text(s@),
            StructuredValue::List(items) => ValueModel::List(items_model(items@, items@.len())),
            StructuredValue::Object(entries) => ValueModel::Object(
                entries_model(entries@, entries@.len()),
            ),
        }
    }
}

impl StructuredValue {
    /// Every float in the value is finite, and no map in it holds a key twice.
    pub open spec fn wf(&self) -> bool
        decreases self,
    {
        match self {
            StructuredValue::Null => true,
            StructuredValue::Bool(_) => true,
            StructuredValue::Number(n) => n@.wf(),
            StructuredValue::String(_) => true,
            StructuredValue::List(items) => forall|i: int|
                0 <= i < items@.len() ==> (#[trigger] items@[i]).wf(),
            StructuredValue::Object(entries) => {
                &&& forall|i: int| 0 <= i < entries@.len() ==> (#[trigger] entries@[i]).1.wf()
                &&& keys_distinct(entries@)
            },
        }
    }
}

/// The views of values are as many as the values, each the view of the value
/// in its place.
pub proof fn lemma_items_model(items: Seq<StructuredValue>, n: nat)
    requires
        n <= items.len(),
    ensures
        items_model(items, n).len() == n,
        forall|i: int| 0 <= i < n ==> #[trigger] items_model(items, n)[i] == items[i]@,
    decreases n,
{
    if n > 0 {
        lemma_items_model(items, (n - 1) as nat);
        assert(items_model(items, n) == items_model(items, (n - 1) as nat).push(items[n - 1]@));
    }
}

/// The model of the entries is the map of the entries, each value read
/// through its view.
pub proof fn lemma_entries_model(entries: Seq<(String, StructuredValue)>, n: nat)
    requires
        n <= entries.len(),
    ensures
        entries_model(entries, n).dom() == map_of(entries, n).dom(),
        forall|k: Seq<char>| #[trigger]
            map_of(entries, n).contains_key(k) ==> entries_model(entries, n)[k] == map_of(
                entries,
                n,
            )[k]@,
    decreases n,
{
    if n > 0 {
        let m = (n - 1) as nat;
        lemma_entries_model(entries, m);
        assert(entries_model(entries, n) == entries_model(entries, m).insert(
            entries[m as int].0@,
            entries[m as int].1@,
        ));
        assert(map_of(entries, n) == map_of(entries, m).insert(
            entries[m as int].0@,
            entries[m as int].1,
        ));
    }
    assert(entries_model(entries, n).dom() =~= map_of(entries, n).dom());
}

} // verus!
