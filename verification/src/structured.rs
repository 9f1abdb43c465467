//! Structured values: the JSON-like trees that cross the extension protocol
//! boundary, together with their mathematical model.

use vstd::prelude::*;

verus! {

/// Mathematical model of a structured value: a tree of scalars, sequences
/// and keyed field lists. Contracts throughout the crate speak of this type.
pub enum ValueModel {
    Null,
    Bool(bool),
    Int(int),
    Text(Seq<char>),
    Array(Seq<ValueModel>),
    Object(Seq<(Seq<char>, ValueModel)>),
}

/// A structured value: the dynamically-typed tree (equivalent to a JSON
/// document) in which every payload crosses the extension boundary.
///
/// Objects keep their fields as an ordered list of key/value pairs; the
/// protocol does not require key lookup to be better than linear.
#[derive(Debug, PartialEq, Eq)]
pub enum StructuredValue {
    Null,
    Bool(bool),
    Int(i64),
    Text(String),
    Array(Vec<StructuredValue>),
    Object(Vec<(String, StructuredValue)>),
}

impl StructuredValue {
    /// The mathematical tree this value represents.
    pub open spec fn model(self) -> ValueModel
        decreases self,
    {
        match self {
            StructuredValue::Null => ValueModel::Null,
            StructuredValue::Bool(b) => ValueModel::Bool(b),
            StructuredValue::Int(i) => ValueModel::Int(i as int),
            StructuredValue::Text(s) => ValueModel::Text(s@),
            StructuredValue::Array(items) => ValueModel::Array(items_model(items@)),
            StructuredValue::Object(fields) => ValueModel::Object(fields_model(fields@)),
        }
    }
}

/// The models of an array's elements, in order.
pub open spec fn items_model(items: Seq<StructuredValue>) -> Seq<ValueModel>
    decreases items,
{
    if items.len() == 0 {
        Seq::empty()
    } else {
        seq![items[0].model()] + items_model(items.subrange(1, items.len() as int))
    }
}

/// The models of an object's fields, in order.
pub open spec fn fields_model(fields: Seq<(String, StructuredValue)>) -> Seq<
    (Seq<char>, ValueModel),
>
    decreases fields,
{
    if fields.len() == 0 {
        Seq::empty()
    } else {
        seq![(fields[0].0@, fields[0].1.model())] + fields_model(
            fields.subrange(1, fields.len() as int),
        )
    }
}

/// An object's model has one entry per field: the key's characters and the
/// value's model.
pub broadcast proof fn lemma_fields_model(fields: Seq<(String, StructuredValue)>)
    ensures
        (#[trigger] fields_model(fields)).len() == fields.len(),
        forall|i: int|
            0 <= i < fields.len() ==> fields_model(fields)[i] == (
                fields[i].0@,
                fields[i].1.model(),
            ),
    decreases fields.len(),
{
    if fields.len() > 0 {
        let rest = fields.subrange(1, fields.len() as int);
        lemma_fields_model(rest);
        assert forall|i: int|
            0 <= i < fields.len() implies fields_model(fields)[i] == (
            fields[i].0@,
            fields[i].1.model(),
        ) by {
            if i > 0 {
                assert(rest[i - 1] == fields[i]);
            }
        }
    }
}

impl View for StructuredValue {
    type V = ValueModel;

    open spec fn view(&self) -> ValueModel {
        self.model()
    }
}

/// Looks a key up in a field list, starting at position `i`; first match wins.
pub open spec fn field_lookup_from(
    fields: Seq<(Seq<char>, ValueModel)>,
    key: Seq<char>,
    i: int,
) -> Option<ValueModel>
    decreases fields.len() - i,
{
    if i < 0 || i >= fields.len() {
        None
    } else if fields[i].0 == key {
        Some(fields[i].1)
    } else {
        field_lookup_from(fields, key, i + 1)
    }
}

/// Looks a key up in a field list; first match wins.
pub open spec fn field_lookup(
    fields: Seq<(Seq<char>, ValueModel)>,
    key: Seq<char>,
) -> Option<ValueModel> {
    field_lookup_from(fields, key, 0)
}

/// Looks a key up in a structured value; `None` unless the value is an
/// object holding the key.
pub open spec fn value_lookup(v: ValueModel, key: Seq<char>) -> Option<ValueModel> {
    match v {
        ValueModel::Object(fields) => field_lookup(fields, key),
        _ => None,
    }
}

impl StructuredValue {
    /// Returns the field stored under `key` if this value is an object that
    /// holds one, exactly as `value_lookup` describes.
    pub fn get_field<'a>(&'a self, key: &String) -> (r: Option<&'a StructuredValue>)
        ensures
            match r {
                Some(found) => value_lookup(self@, key@) == Some(found@),
                None => value_lookup(self@, key@) is None,
            },
    {
        broadcast use lemma_fields_model;

        match self {
            StructuredValue::Object(fields) => {
                let ghost fields_m = fields_model(fields@);
                proof {
                    assert(self@ == ValueModel::Object(fields_m));
                }
                let mut i: usize = 0;
                while i < fields.len()
                    invariant
                        i <= fields.len(),
                        fields_m == fields_model(fields@),
                        self@ == ValueModel::Object(fields_m),
                        field_lookup(fields_m, key@) == field_lookup_from(fields_m, key@, i as int),
                    decreases fields.len() - i,
                {
                    let entry = &fields[i];
                    proof {
                        broadcast use lemma_fields_model;

                        assert(fields_m[i as int] == (fields@[i as int].0@, fields@[i as int].1.model()));
                    }
                    if entry.0 == *key {
                        proof {
                            assert(field_lookup_from(fields_m, key@, i as int)
                                == Some(fields_m[i as int].1));
                        }
                        return Some(&entry.1);
                    }
                    proof {
                        assert(field_lookup_from(fields_m, key@, i as int)
                            == field_lookup_from(fields_m, key@, i as int + 1));
                    }
                    i = i + 1;
                }
                None
            },
            _ => None,
        }
    }
}

} // verus!
