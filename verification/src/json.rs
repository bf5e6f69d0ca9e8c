//! A small JSON document model.
//!
//! Response bodies are assembled as [`JsonValue`] trees and handed to the
//! transport layer, which renders them on the wire. Contracts speak of the
//! mathematical shape of a document through [`JsonModel`], the view of a
//! [`JsonValue`].

use vstd::prelude::*;

verus! {

/// The mathematical shape of a JSON document: what a [`JsonValue`] means,
/// with strings as character sequences and collections as `Seq`.
#[verifier::ext_equal]
pub enum JsonModel {
    Null,
    Bool(bool),
    UInt(u64),
    Int(i64),
    Str(Seq<char>),
    Arr(Seq<JsonModel>),
    Obj(Seq<(Seq<char>, JsonModel)>),
}

/// An owned JSON document: the unit in which response bodies are built.
#[derive(Debug)]
#[verifier::ext_equal]
pub enum JsonValue {
    Null,
    Bool(bool),
    UInt(u64),
    Int(i64),
    Str(String),
    Arr(Vec<JsonValue>),
    Obj(Vec<(String, JsonValue)>),
}

impl JsonValue {
    /// The document this value denotes.
    pub open spec fn model(self) -> JsonModel
        decreases self,
    {
        match self {
            JsonValue::Null => JsonModel::Null,
            JsonValue::Bool(b) => JsonModel::Bool(b),
            JsonValue::UInt(n) => JsonModel::UInt(n),
            JsonValue::Int(n) => JsonModel::Int(n),
            JsonValue::Str(s) => JsonModel::Str(s@),
            JsonValue::Arr(items) => JsonModel::Arr(spec_item_models(items@)),
            JsonValue::Obj(entries) => JsonModel::Obj(spec_entry_models(entries@)),
        }
    }
}

/// The documents denoted by a sequence of array items.
pub open spec fn spec_item_models(items: Seq<JsonValue>) -> Seq<JsonModel>
    decreases items,
{
    if items.len() == 0 {
        Seq::empty()
    } else {
        spec_item_models(items.drop_last()).push(items.last().model())
    }
}

/// The keyed documents denoted by a sequence of object entries.
pub open spec fn spec_entry_models(entries: Seq<(String, JsonValue)>) -> Seq<
    (Seq<char>, JsonModel),
>
    decreases entries,
{
    if entries.len() == 0 {
        Seq::empty()
    } else {
        spec_entry_models(entries.drop_last()).push(
            (entries.last().0@, entries.last().1.model()),
        )
    }
}

impl View for JsonValue {
    type V = JsonModel;

    open spec fn view(&self) -> JsonModel {
        self.model()
    }
}

/// Item models are in one-to-one, order-preserving correspondence with the
/// items themselves.
pub broadcast proof fn lemma_item_models(items: Seq<JsonValue>)
    ensures
        #[trigger] spec_item_models(items).len() == items.len(),
        forall|i: int|
            0 <= i < items.len() ==> spec_item_models(items)[i] == items[i].model(),
    decreases items,
{
    if items.len() > 0 {
        lemma_item_models(items.drop_last());
    }
}

impl JsonModel {
    /// The keys of an object document, in entry order; empty for any
    /// other shape.
    pub open spec fn keys(self) -> Seq<Seq<char>> {
        match self {
            JsonModel::Obj(entries) => entries.map_values(|e: (Seq<char>, JsonModel)| e.0),
            _ => Seq::empty(),
        }
    }
}

/// A string document over the given text.
pub fn json_str(s: &str) -> (r: JsonValue)
    ensures
        r@ == JsonModel::Str(s@),
{
    JsonValue::Str(s.to_owned())
}

/// An object document with no entries yet.
pub fn json_obj_new() -> (r: JsonValue)
    ensures
        r@ == JsonModel::Obj(Seq::<(Seq<char>, JsonModel)>::empty()),
{
    let entries: Vec<(String, JsonValue)> = Vec::new();
    JsonValue::Obj(entries)
}

/// The document an array of strings denotes.
pub open spec fn spec_str_arr(items: Seq<String>) -> JsonModel {
    JsonModel::Arr(Seq::new(items.len(), |i: int| JsonModel::Str(items[i]@)))
}

/// An array document over string items.
pub fn json_str_arr(items: Vec<String>) -> (r: JsonValue)
    ensures
        r@ == spec_str_arr(items@),
{
    let ghost source = items@;
    let mut out: Vec<JsonValue> = Vec::new();
    let mut i: usize = 0;
    let items_len = items.len();
    let mut rest = items;
    // Consume from the front so each item's String moves into the array.
    proof {
        assert(rest@ =~= source.subrange(i as int, source.len() as int));
    }
    while i < items_len
        invariant
            i <= source.len(),
            items_len == source.len(),
            rest@ == source.subrange(i as int, source.len() as int),
            out@.len() == i,
            forall|j: int| 0 <= j < i ==> out@[j] == JsonValue::Str(source[j]),
        decreases items_len - i,
    {
        let s = rest.remove(0);
        out.push(JsonValue::Str(s));
        i += 1;
        proof {
            assert(rest@ =~= source.subrange(i as int, source.len() as int));
        }
    }
    let r = JsonValue::Arr(out);
    proof {
        lemma_item_models(out@);
        let target = Seq::new(source.len(), |j: int| JsonModel::Str(source[j]@));
        assert forall|j: int| 0 <= j < source.len() implies spec_item_models(out@)[j]
            == target[j] by {
            assert(out@[j] == JsonValue::Str(source[j]));
        }
        assert(spec_item_models(out@) =~= target);
    }
    r
}

/// Appends one entry to an object document.
pub fn json_obj_push(obj: &mut JsonValue, key: &str, value: JsonValue)
    requires
        *old(obj) is Obj,
    ensures
        (*final(obj))@ == JsonModel::Obj((*old(obj))@->Obj_0.push((key@, value@))),
{
    let ghost value_model = value@;
    match obj {
        JsonValue::Obj(entries) => {
            let ghost before = entries@;
            entries.push((key.to_owned(), value));
            proof {
                assert(entries@.drop_last() =~= before);
            }
        }
        _ => {
            proof {
                assert(false);
            }
        }
    }
}

} // verus!
