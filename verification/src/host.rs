//! Host values: what the scripting host hands over, seen through the
//! extraction probes. A host value carries no tag; it is known only by which
//! probes succeed on it, and several may.

use vstd::prelude::*;

verus! {

/// A host value as the probes report it, one field for each probe.
#[derive(Debug, PartialEq, Eq)]
pub struct HostValue {
    /// Whether the value is the host's null.
    pub is_none: bool,
    /// The boolean that can be extracted, if any.
    pub as_bool: Option<bool>,
    /// The integer that can be extracted, if any.
    pub as_int: Option<i64>,
    /// The bit pattern of the double-precision number that can be extracted,
    /// if any.
    pub as_float: Option<u64>,
    /// The string that can be extracted, if any.
    pub as_text: Option<String>,
    /// The elements of the sequence that can be extracted, in order, if any.
    pub as_list: Option<Vec<HostValue>>,
    /// The entries of the string-keyed mapping that can be extracted, in the
    /// order in which the host gave them, if any.
    pub as_map: Option<Vec<(String, HostValue)>>,
    /// A description of the value, for error messages.
    pub repr: String,
}

/// The mathematical content of a [`HostValue`].
pub struct HostModel {
    pub is_none: bool,
    pub as_bool: Option<bool>,
    pub as_int: Option<int>,
    pub as_float: Option<u64>,
    pub as_text: Option<Seq<char>>,
    pub as_list: Option<Seq<HostModel>>,
    pub as_map: Option<Seq<(Seq<char>, HostModel)>>,
    pub repr: Seq<char>,
}

/// The views of the first `n` host values, in order.
pub open spec fn host_models(items: Seq<HostValue>, n: nat) -> Seq<HostModel>
    decreases items, n,
{
    if n == 0 || n > items.len() {
        Seq::empty()
    } else {
        host_models(items, (n - 1) as nat).push(items[n - 1].view())
    }
}

/// The views of the first `n` keyed host values, in order.
pub open spec fn host_entry_models(entries: Seq<(String, HostValue)>, n: nat) -> Seq<
    (Seq<char>, HostModel),
>
    decreases entries, n,
{
    if n == 0 || n > entries.len() {
        Seq::empty()
    } else {
        host_entry_models(entries, (n - 1) as nat).push(
            (entries[n - 1].0@, entries[n - 1].1.view()),
        )
    }
}

/// The views of host values are as many as the values, each the view of the
/// value in its place.
pub proof fn lemma_host_models(items: Seq<HostValue>, n: nat)
    requires
        n <= items.len(),
    ensures
        host_models(items, n).len() == n,
        forall|i: int| 0 <= i < n ==> #[trigger] host_models(items, n)[i] == items[i]@,
    decreases n,
{
    if n > 0 {
        lemma_host_models(items, (n - 1) as nat);
        assert(host_models(items, n) == host_models(items, (n - 1) as nat).push(items[n - 1]@));
    }
}

/// The views of keyed host values are as many as the entries, each the key
/// and the view of the value in its place.
pub proof fn lemma_host_entry_models(entries: Seq<(String, HostValue)>, n: nat)
    requires
        n <= entries.len(),
    ensures
        host_entry_models(entries, n).len() == n,
        forall|i: int|
            0 <= i < n ==> #[trigger] host_entry_models(entries, n)[i] == (
                entries[i].0@,
                entries[i].1@,
            ),
    decreases n,
{
    if n > 0 {
        lemma_host_entry_models(entries, (n - 1) as nat);
        assert(host_entry_models(entries, n) == host_entry_models(entries, (n - 1) as nat).push(
            (entries[n - 1].0@, entries[n - 1].1@),
        ));
    }
}

impl View for HostValue {
    type V = HostModel;

    open spec fn view(&self) -> HostModel
        decreases self, 0nat,
    {
        HostModel {
            is_none: self.is_none,
            as_bool: self.as_bool,
            as_int: match self.as_int {
                Some(i) => Some(i as int),
                None => None,
            },
            as_float: self.as_float,
            as_text: match self.as_text {
                Some(s) => Some(s@),
                None => None,
            },
            as_list: match self.as_list {
                Some(items) => Some(host_models(items@, items@.len())),
                None => None,
            },
            as_map: match self.as_map {
                Some(entries) => Some(host_entry_models(entries@, entries@.len())),
                None => None,
            },
            repr: self.repr@,
        }
    }
}

/// A host value that has no structured form.
#[derive(Debug, PartialEq, Eq)]
pub struct ConversionError {
    /// The description of the value that could not be converted.
    pub value: String,
}

/// What every message of a [`ConversionError`] begins with.
pub open spec fn conversion_message_prefix() -> Seq<char> {
    "Cannot convert Python object to JSON: "@
}

impl ConversionError {
    /// The message of the error: a fixed beginning, then the value's description.
    pub fn message(&self) -> (text: String)
        ensures
            text@ == conversion_message_prefix() + self.value@,
    {
        "Cannot convert Python object to JSON: ".to_owned().concat(self.value.as_str())
    }
}

} // verus!
