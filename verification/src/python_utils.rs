//! Coercion of host values into structured values.
//!
//! A host value is untagged, so the coercion goes through the extraction
//! probes in a fixed order and takes the first that succeeds: null, boolean,
//! integer, float, string, sequence, string-keyed mapping. A float that is not
//! finite becomes null. A sequence or a mapping is coerced as a whole or not
//! at all. A value on which no probe succeeds has no structured form.
//!
//! Beside the coercion stands the reading of a host function's parameter
//! names, which is the host's work from end to end.

use crate::assoc::{has_key, keys_distinct, upsert, with_entry};
use crate::host::{
    lemma_host_entry_models, lemma_host_models, ConversionError, HostModel, HostValue,
};
use crate::interpreter::{
    call_method_with, dictionary_keys, extract_text, get_attribute, import_module, CallbackHandle,
    HostError,
};
use crate::value::{
    entries_model, is_finite_bits, lemma_entries_model, lemma_items_model, spec_is_finite_bits,
    Number, NumberModel, StructuredValue, ValueModel,
};
use vstd::prelude::*;

verus! {

/// The structured form of a host value, or the description of the value that
/// has none.
pub open spec fn coerce(host: HostModel) -> Result<ValueModel, Seq<char>>
    decreases host, 0nat,
{
    if host.is_none {
        Ok(ValueModel::Null)
    } else if let Some(b) = host.as_bool {
        Ok(ValueModel::Bool(b))
    } else if let Some(i) = host.as_int {
        Ok(ValueModel::Number(NumberModel::Int(i)))
    } else if let Some(bits) = host.as_float {
        if spec_is_finite_bits(bits) {
            Ok(ValueModel::Number(NumberModel::Float(bits)))
        } else {
            Ok(ValueModel::Null)
        }
    } else if let Some(text) = host.as_text {
        Ok(ValueModel::Text(text))
    } else if let Some(items) = host.as_list {
        match coerce_items(items, items.len()) {
            Ok(values) => Ok(ValueModel::List(values)),
            Err(description) => Err(description),
        }
    } else if let Some(entries) = host.as_map {
        match coerce_entries(entries, entries.len()) {
            Ok(fields) => Ok(ValueModel::Object(fields)),
            Err(description) => Err(description),
        }
    } else {
        Err(host.repr)
    }
}

/// The structured forms of the first `n` items, in order; or, where one of
/// them has none, the description of the first such item.
pub open spec fn coerce_items(items: Seq<HostModel>, n: nat) -> Result<
    Seq<ValueModel>,
    Seq<char>,
>
    decreases items, n,
{
    if n == 0 || n > items.len() {
        Ok(Seq::empty())
    } else {
        match coerce_items(items, (n - 1) as nat) {
            Err(description) => Err(description),
            Ok(values) => match coerce(items[n - 1]) {
                Err(description) => Err(description),
                Ok(value) => Ok(values.push(value)),
            },
        }
    }
}

/// The map of the structured forms of the first `n` entries, a later entry
/// replacing an earlier one under the same key; or, where the value of one of
/// them has no structured form, the description of the first such value.
pub open spec fn coerce_entries(entries: Seq<(Seq<char>, HostModel)>, n: nat) -> Result<
    Map<Seq<char>, ValueModel>,
    Seq<char>,
>
    decreases entries, n,
{
    if n == 0 || n > entries.len() {
        Ok(Map::empty())
    } else {
        match coerce_entries(entries, (n - 1) as nat) {
            Err(description) => Err(description),
            Ok(fields) => match coerce(entries[n - 1].1) {
                Err(description) => Err(description),
                Ok(value) => Ok(fields.insert(entries[n - 1].0, value)),
            },
        }
    }
}

/// The order of the probes: each decides only where none before it succeeded.
pub proof fn lemma_first_probe_decides(host: HostModel)
    ensures
        host.is_none ==> coerce(host) == Ok::<ValueModel, Seq<char>>(ValueModel::Null),
        !host.is_none && host.as_bool is Some ==> coerce(host) == Ok::<ValueModel, Seq<char>>(
            ValueModel::Bool(host.as_bool->0),
        ),
        !host.is_none && host.as_bool is None && host.as_int is Some ==> coerce(host) == Ok::<
            ValueModel,
            Seq<char>,
        >(ValueModel::Number(NumberModel::Int(host.as_int->0))),
        !host.is_none && host.as_bool is None && host.as_int is None && host.as_float is None
            && host.as_text is Some ==> coerce(host) == Ok::<ValueModel, Seq<char>>(
            ValueModel::Text(host.as_text->0),
        ),
{
}

/// A float that is not finite, be it a NaN or an infinity, becomes null, and
/// no error; a finite one keeps its bits.
pub proof fn lemma_float_is_number_or_null(host: HostModel)
    requires
        !host.is_none,
        host.as_bool is None,
        host.as_int is None,
        host.as_float is Some,
    ensures
        coerce(host) == Ok::<ValueModel, Seq<char>>(
            if spec_is_finite_bits(host.as_float->0) {
                ValueModel::Number(NumberModel::Float(host.as_float->0))
            } else {
                ValueModel::Null
            },
        ),
{
}

/// A value on which no probe succeeds has no structured form: the result is
/// the error that describes it.
pub proof fn lemma_unrecognized_is_error(host: HostModel)
    requires
        !host.is_none,
        host.as_bool is None,
        host.as_int is None,
        host.as_float is None,
        host.as_text is None,
        host.as_list is None,
        host.as_map is None,
    ensures
        coerce(host) == Err::<ValueModel, Seq<char>>(host.repr),
{
}

/// A sequence keeps its structure: where every item has a structured form,
/// the result has as many values as there are items, each the form of the
/// item in its place; otherwise the result is the error of the first item
/// that has none.
pub proof fn lemma_sequence_is_coerced_in_place(items: Seq<HostModel>, n: nat)
    requires
        n <= items.len(),
    ensures
        match coerce_items(items, n) {
            Ok(values) => {
                &&& values.len() == n
                &&& forall|i: int|
                    0 <= i < n ==> coerce(#[trigger] items[i]) == Ok::<ValueModel, Seq<char>>(
                        values[i],
                    )
            },
            Err(description) => exists|k: int|
                {
                    &&& 0 <= k < n
                    &&& coerce(#[trigger] items[k]) == Err::<ValueModel, Seq<char>>(description)
                    &&& forall|i: int| 0 <= i < k ==> coerce(#[trigger] items[i]) is Ok
                },
        },
    decreases n,
{
    if n > 0 {
        let m = (n - 1) as nat;
        lemma_sequence_is_coerced_in_place(items, m);
        match coerce_items(items, m) {
            Ok(values) => {
                match coerce(items[m as int]) {
                    Ok(value) => {},
                    Err(description) => {
                        assert(coerce(items[m as int]) == Err::<ValueModel, Seq<char>>(
                            description,
                        ));
                    },
                }
            },
            Err(description) => {
                let k = choose|k: int|
                    {
                        &&& 0 <= k < m
                        &&& coerce(#[trigger] items[k]) == Err::<ValueModel, Seq<char>>(
                            description,
                        )
                        &&& forall|i: int| 0 <= i < k ==> coerce(#[trigger] items[i]) is Ok
                    };
                assert(0 <= k < n);
            },
        }
    }
}

/// Whether one of the first `n` entries has the key.
pub open spec fn key_among(entries: Seq<(Seq<char>, HostModel)>, n: nat, key: Seq<char>) -> bool {
    exists|i: int| 0 <= i < n && (#[trigger] entries[i]).0 == key
}

/// Whether none of the first `n` entries behind entry `i` has that entry's key.
pub open spec fn last_of_its_key(entries: Seq<(Seq<char>, HostModel)>, n: nat, i: int) -> bool {
    forall|j: int| i < j < n ==> (#[trigger] entries[j]).0 != entries[i].0
}

/// A mapping keeps its structure: where every value has a structured form,
/// the result has the keys of the entries and no others, and holds under
/// each key the form of the value of the last entry with that key; otherwise
/// the result is the error of the first value that has no structured form.
pub proof fn lemma_mapping_is_coerced_by_key(entries: Seq<(Seq<char>, HostModel)>, n: nat)
    requires
        n <= entries.len(),
    ensures
        match coerce_entries(entries, n) {
            Ok(fields) => {
                &&& forall|i: int| 0 <= i < n ==> coerce((#[trigger] entries[i]).1) is Ok
                &&& forall|key: Seq<char>| #[trigger]
                    fields.contains_key(key) <==> key_among(entries, n, key)
                &&& forall|i: int|
                    0 <= i < n && #[trigger] last_of_its_key(entries, n, i) ==> coerce(
                        entries[i].1,
                    ) == Ok::<ValueModel, Seq<char>>(fields[entries[i].0])
            },
            Err(description) => exists|k: int|
                {
                    &&& 0 <= k < n
                    &&& coerce((#[trigger] entries[k]).1) == Err::<ValueModel, Seq<char>>(
                        description,
                    )
                    &&& forall|i: int| 0 <= i < k ==> coerce((#[trigger] entries[i]).1) is Ok
                },
        },
    decreases n,
{
    if n > 0 {
        let m = (n - 1) as nat;
        let last = entries[m as int];
        lemma_mapping_is_coerced_by_key(entries, m);
        match coerce_entries(entries, m) {
            Ok(before) => {
                match coerce(last.1) {
                    Ok(value) => {
                        let fields = before.insert(last.0, value);
                        assert(coerce_entries(entries, n) == Ok::<
                            Map<Seq<char>, ValueModel>,
                            Seq<char>,
                        >(fields));
                        assert forall|key: Seq<char>| #[trigger]
                            fields.contains_key(key) <==> key_among(entries, n, key) by {
                            if fields.contains_key(key) {
                                if key == last.0 {
                                    assert(entries[m as int].0 == key);
                                } else {
                                    assert(before.contains_key(key));
                                    assert(key_among(entries, m, key));
                                    let i = choose|i: int|
                                        0 <= i < m && (#[trigger] entries[i]).0 == key;
                                    assert(entries[i].0 == key);
                                }
                            }
                            if key_among(entries, n, key) {
                                let i = choose|i: int|
                                    0 <= i < n && (#[trigger] entries[i]).0 == key;
                                if i < m {
                                    assert(key_among(entries, m, key));
                                }
                            }
                        }
                        assert forall|i: int|
                            0 <= i < n && #[trigger] last_of_its_key(entries, n, i) implies coerce(
                            entries[i].1,
                        ) == Ok::<ValueModel, Seq<char>>(fields[entries[i].0]) by {
                            if i < m {
                                assert(entries[m as int].0 != entries[i].0);
                                assert(last_of_its_key(entries, m, i));
                            }
                        }
                    },
                    Err(description) => {
                        assert(coerce(entries[m as int].1) == Err::<ValueModel, Seq<char>>(
                            description,
                        ));
                        assert(forall|i: int|
                            0 <= i < m ==> coerce((#[trigger] entries[i]).1) is Ok);
                    },
                }
            },
            Err(description) => {
                let k = choose|k: int|
                    {
                        &&& 0 <= k < m
                        &&& coerce((#[trigger] entries[k]).1) == Err::<ValueModel, Seq<char>>(
                            description,
                        )
                        &&& forall|i: int|
                            0 <= i < k ==> coerce((#[trigger] entries[i]).1) is Ok
                    };
                assert(0 <= k < n);
            },
        }
    } else {
        assert forall|key: Seq<char>| !key_among(entries, 0, key) by {}
    }
}

/// The views of host values, in order.
pub open spec fn host_views(items: Seq<HostValue>) -> Seq<HostModel> {
    Seq::new(items.len(), |i: int| items[i]@)
}

/// The views of keyed host values, in order.
pub open spec fn host_entry_views(entries: Seq<(String, HostValue)>) -> Seq<
    (Seq<char>, HostModel),
> {
    Seq::new(entries.len(), |i: int| (entries[i].0@, entries[i].1@))
}

/// The views of structured values, in order.
pub open spec fn value_views(values: Seq<StructuredValue>) -> Seq<ValueModel> {
    Seq::new(values.len(), |i: int| values[i]@)
}

/// Once an item has no structured form, taking more items changes nothing.
proof fn lemma_items_failure_stays(items: Seq<HostModel>, k: nat, n: nat)
    requires
        k <= n <= items.len(),
        coerce_items(items, k) is Err,
    ensures
        coerce_items(items, n) == coerce_items(items, k),
    decreases n,
{
    if k < n {
        lemma_items_failure_stays(items, k, (n - 1) as nat);
    }
}

/// Once a value has no structured form, taking more entries changes nothing.
proof fn lemma_entries_failure_stays(entries: Seq<(Seq<char>, HostModel)>, k: nat, n: nat)
    requires
        k <= n <= entries.len(),
        coerce_entries(entries, k) is Err,
    ensures
        coerce_entries(entries, n) == coerce_entries(entries, k),
    decreases n,
{
    if k < n {
        lemma_entries_failure_stays(entries, k, (n - 1) as nat);
    }
}

/// Coerces the items of a sequence, all or none.
fn coerce_sequence(items: &Vec<HostValue>) -> (r: Result<Vec<StructuredValue>, ConversionError>)
    ensures
        match r {
            Ok(values) => {
                &&& coerce_items(host_views(items@), items@.len()) == Ok::<
                    Seq<ValueModel>,
                    Seq<char>,
                >(value_views(values@))
                &&& forall|i: int| 0 <= i < values@.len() ==> (#[trigger] values@[i]).wf()
            },
            Err(e) => coerce_items(host_views(items@), items@.len()) == Err::<
                Seq<ValueModel>,
                Seq<char>,
            >(e.value@),
        },
    decreases items, 1nat,
{
    let ghost models = host_views(items@);
    let mut values: Vec<StructuredValue> = Vec::new();
    let mut i: usize = 0;
    assert(value_views(values@) =~= Seq::empty());
    while i < items.len()
        invariant
            i <= items@.len(),
            models == host_views(items@),
            coerce_items(models, i as nat) == Ok::<Seq<ValueModel>, Seq<char>>(
                value_views(values@),
            ),
            forall|j: int| 0 <= j < values@.len() ==> (#[trigger] values@[j]).wf(),
        decreases items@.len() - i,
    {
        let ghost before = value_views(values@);
        match pyany_to_json_value(&items[i]) {
            Ok(value) => {
                values.push(value);
                assert(value_views(values@) == before.push(value@));
            },
            Err(e) => {
                proof {
                    lemma_items_failure_stays(models, (i + 1) as nat, items@.len());
                }
                return Err(e);
            },
        }
        i += 1;
    }
    Ok(values)
}

/// Coerces the entries of a mapping, all or none, a later entry replacing
/// an earlier one under the same key.
fn coerce_mapping(entries: &Vec<(String, HostValue)>) -> (r: Result<
    Vec<(String, StructuredValue)>,
    ConversionError,
>)
    ensures
        match r {
            Ok(fields) => {
                &&& coerce_entries(host_entry_views(entries@), entries@.len()) == Ok::<
                    Map<Seq<char>, ValueModel>,
                    Seq<char>,
                >(entries_model(fields@, fields@.len()))
                &&& keys_distinct(fields@)
                &&& forall|i: int| 0 <= i < fields@.len() ==> (#[trigger] fields@[i]).1.wf()
            },
            Err(e) => coerce_entries(host_entry_views(entries@), entries@.len()) == Err::<
                Map<Seq<char>, ValueModel>,
                Seq<char>,
            >(e.value@),
        },
    decreases entries, 1nat,
{
    let ghost models = host_entry_views(entries@);
    let mut fields: Vec<(String, StructuredValue)> = Vec::new();
    let mut i: usize = 0;
    while i < entries.len()
        invariant
            i <= entries@.len(),
            models == host_entry_views(entries@),
            coerce_entries(models, i as nat) == Ok::<Map<Seq<char>, ValueModel>, Seq<char>>(
                entries_model(fields@, fields@.len()),
            ),
            keys_distinct(fields@),
            forall|j: int| 0 <= j < fields@.len() ==> (#[trigger] fields@[j]).1.wf(),
        decreases entries@.len() - i,
    {
        match pyany_to_json_value(&entries[i].1) {
            Ok(value) => {
                let ghost before = fields@;
                let key = entries[i].0.clone();
                upsert(&mut fields, key, value);
                proof {
                    let after = fields@;
                    assert(after == with_entry(before, key, value));
                    lemma_entries_model(before, before.len());
                    lemma_entries_model(after, after.len());
                    assert(entries_model(after, after.len()) =~= entries_model(
                        before,
                        before.len(),
                    ).insert(key@, value@));
                    assert forall|j: int| 0 <= j < after.len() implies (
                    #[trigger] after[j]).1.wf() by {
                        if has_key(before, key@) {
                            if after[j] != (key, value) {
                                assert(after[j] == before[j]);
                            }
                        } else {
                            if j < before.len() {
                                assert(after[j] == before[j]);
                            }
                        }
                    }
                }
            },
            Err(e) => {
                proof {
                    lemma_entries_failure_stays(models, (i + 1) as nat, entries@.len());
                }
                return Err(e);
            },
        }
        i += 1;
    }
    Ok(fields)
}

/// Coerces a host value into a structured value.
///
/// The probes count in this order, and the first that succeeded decides: null,
/// boolean, integer, float, string, sequence, mapping. A float that is not
/// finite gives null. Where no probe succeeded, or an element of the sequence
/// or a value of the mapping has no structured form, the result is the error
/// that describes the first such value.
pub fn pyany_to_json_value(host: &HostValue) -> (r: Result<StructuredValue, ConversionError>)
    ensures
        match r {
            Ok(value) => value.wf() && coerce(host@) == Ok::<ValueModel, Seq<char>>(value@),
            Err(e) => coerce(host@) == Err::<ValueModel, Seq<char>>(e.value@),
        },
    decreases host, 0nat,
{
    if host.is_none {
        return Ok(StructuredValue::Null);
    }
    if let Some(b) = host.as_bool {
        return Ok(StructuredValue::Bool(b));
    }
    if let Some(i) = host.as_int {
        return Ok(StructuredValue::Number(Number::Int(i)));
    }
    if let Some(bits) = host.as_float {
        if is_finite_bits(bits) {
            return Ok(StructuredValue::Number(Number::Float(bits)));
        }
        return Ok(StructuredValue::Null);
    }
    if let Some(text) = &host.as_text {
        return Ok(StructuredValue::String(text.clone()));
    }
    if let Some(items) = &host.as_list {
        proof {
            lemma_host_models(items@, items@.len());
        }
        assert(host@.as_list->0 =~= host_views(items@));
        return match coerce_sequence(items) {
            Ok(values) => {
                let list = StructuredValue::List(values);
                proof {
                    lemma_items_model(values@, values@.len());
                }
                assert(list@->List_0 =~= value_views(values@));
                Ok(list)
            },
            Err(e) => Err(e),
        };
    }
    if let Some(entries) = &host.as_map {
        proof {
            lemma_host_entry_models(entries@, entries@.len());
        }
        assert(host@.as_map->0 =~= host_entry_views(entries@));
        return match coerce_mapping(entries) {
            Ok(fields) => Ok(StructuredValue::Object(fields)),
            Err(e) => Err(e),
        };
    }
    Err(ConversionError { value: host.repr.clone() })
}

/// The strings that the host's objects hold, in order; or the host's error
/// for the first object that holds none.
///
/// The strings are the host's. Whatever they are: success gives one name for
/// each object, and only an object can make the reading fail, so that no
/// objects give no names and no error.
pub fn names_of(keys: &Vec<CallbackHandle>) -> (outcome: Result<Vec<String>, HostError>)
    ensures
        match outcome {
            Ok(names) => names@.len() == keys@.len(),
            Err(_) => keys@.len() > 0,
        },
{
    let mut names: Vec<String> = Vec::new();
    let mut i: usize = 0;
    while i < keys.len()
        invariant
            i <= keys@.len(),
            names@.len() == i,
        decreases keys@.len() - i,
    {
        match extract_text(&keys[i]) {
            Ok(name) => names.push(name),
            Err(error) => {
                return Err(error);
            },
        }
        i += 1;
    }
    Ok(names)
}

/// The names of the parameters of a function of the host, in the order of
/// its signature: the keys of the `parameters` of what the host's `inspect`
/// module gives as the function's `signature`.
///
/// Every step is the host's: where one fails, its error is the result.
pub fn get_function_arg_names(func: &CallbackHandle) -> (outcome: Result<Vec<String>, HostError>) {
    let inspect = match import_module("inspect") {
        Ok(module) => module,
        Err(error) => {
            return Err(error);
        },
    };
    let signature = match call_method_with(&inspect, "signature", func) {
        Ok(signature) => signature,
        Err(error) => {
            return Err(error);
        },
    };
    let parameters = match get_attribute(&signature, "parameters") {
        Ok(parameters) => parameters,
        Err(error) => {
            return Err(error);
        },
    };
    match dictionary_keys(&parameters) {
        Ok(keys) => names_of(&keys),
        Err(error) => Err(error),
    }
}

} // verus!
