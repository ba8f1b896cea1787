//! A model of the CBOR values that CCA tokens are built from, and their
//! serialisation through `ciborium`.
use vstd::prelude::*;

verus! {

broadcast use vstd::std_specs::vec::axiom_vec_index_decreases;

/// A CBOR data item, as far as CCA tokens use them: unsigned integers, byte
/// strings, text strings, arrays, maps (as key/value pairs in insertion order) and tags.
#[derive(Debug)]
pub enum Cbor {
    Uint(u64),
    Bytes(Vec<u8>),
    Text(String),
    Array(Vec<Cbor>),
    Dict(Vec<(Cbor, Cbor)>),
    Tag(u64, Box<Cbor>),
}

/// The mathematical value of a [`Cbor`] item.
pub enum CborModel {
    Uint(u64),
    /// The negative integer `-1 - n`.
    Neg(u64),
    Bytes(Seq<u8>),
    Text(Seq<char>),
    Array(Seq<CborModel>),
    Dict(Seq<(CborModel, CborModel)>),
    Tag(u64, Box<CborModel>),
}

impl Cbor {
    /// The mathematical value of the item, item for item.
    pub open spec fn model(self) -> CborModel
        decreases self,
    {
        match self {
            Cbor::Uint(n) => CborModel::Uint(n),
            Cbor::Bytes(b) => CborModel::Bytes(b@),
            Cbor::Text(t) => CborModel::Text(t@),
            Cbor::Array(items) => CborModel::Array(
                Seq::new(
                    items@.len(),
                    |i: int|
                        if 0 <= i < items@.len() {
                            items@[i].model()
                        } else {
                            CborModel::Uint(0)
                        },
                ),
            ),
            Cbor::Dict(entries) => CborModel::Dict(
                Seq::new(
                    entries@.len(),
                    |i: int|
                        if 0 <= i < entries@.len() {
                            (entries@[i].0.model(), entries@[i].1.model())
                        } else {
                            (CborModel::Uint(0), CborModel::Uint(0))
                        },
                ),
            ),
            Cbor::Tag(t, inner) => CborModel::Tag(t, Box::new(inner.model())),
        }
    }
}

impl View for Cbor {
    type V = CborModel;

    open spec fn view(&self) -> CborModel {
        self.model()
    }
}

} // verus!

verus! {

#[verifier::external_type_specification]
#[verifier::external_body]
pub struct ExCiboriumValue(ciborium::Value);

/// What `ciborium::into_writer` writes for the `ciborium::Value` that a
/// model stands for (`Uint` and `Neg` as `Value::Integer`, the others as the
/// variant of the same name, `Dict` as `Value::Map`).
pub uninterp spec fn cbor_encoding(v: CborModel) -> Seq<u8>;

/// Builds the `ciborium::Value` that a [`Cbor`] item stands for, item for
/// item (integers, byte and text strings, arrays, maps in the same order,
/// tags).
#[verifier::external_body]
fn to_ciborium(v: &Cbor) -> ciborium::Value {
    match v {
        Cbor::Uint(n) => ciborium::Value::Integer((*n).into()),
        Cbor::Bytes(b) => ciborium::Value::Bytes(b.clone()),
        Cbor::Text(t) => ciborium::Value::Text(t.clone()),
        Cbor::Array(items) => ciborium::Value::Array(items.iter().map(to_ciborium).collect()),
        Cbor::Dict(entries) => ciborium::Value::Map(
            entries.iter().map(|(k, x)| (to_ciborium(k), to_ciborium(x))).collect(),
        ),
        Cbor::Tag(t, inner) => ciborium::Value::Tag(*t, Box::new(to_ciborium(inner))),
    }
}

/// Whether no other value encodes to the same bytes as `v`.
pub open spec fn encodes_uniquely(v: CborModel) -> bool {
    forall|w: CborModel| #[trigger] cbor_encoding(w) == cbor_encoding(v) ==> w == v
}

/// `ciborium::into_writer` into a fresh buffer: the bytes are
/// [`cbor_encoding`] of the item, never empty, and the call succeeds (the
/// only errors `into_writer` reports come from the writer, and writing into
/// a `Vec` does not fail; a `Value::Tag` always carries a `u64` tag).  CBOR
/// items are self-delimiting, so the bytes decode back to this item alone.
#[verifier::external_body]
pub(crate) fn cbor_encode(v: &Cbor) -> (r: Result<Vec<u8>, String>)
    ensures
        r is Ok,
        r matches Ok(b) ==> b@ == cbor_encoding(v@) && b@.len() > 0,
        r matches Ok(b) ==> forall|w: CborModel| #[trigger] cbor_encoding(w) == b@ ==> w == v@,
{
    let mut buf: Vec<u8> = Vec::new();
    match ciborium::into_writer(&to_ciborium(v), &mut buf) {
        Ok(()) => Ok(buf),
        Err(e) => Err(e.to_string()),
    }
}

} // verus!

verus! {

/// The values of a list of key/value pairs.
pub open spec fn entries_model(m: Seq<(Cbor, Cbor)>) -> Seq<(CborModel, CborModel)> {
    m.map_values(|e: (Cbor, Cbor)| (e.0@, e.1@))
}

/// The values of a list of items.
pub open spec fn items_model(m: Seq<Cbor>) -> Seq<CborModel> {
    m.map_values(|e: Cbor| e@)
}

/// A map's value is the list of its pairs' values.
pub proof fn lemma_dict_model(m: Vec<(Cbor, Cbor)>)
    ensures
        Cbor::Dict(m)@ == CborModel::Dict(entries_model(m@)),
{
    assert(Cbor::Dict(m)@->Dict_0 =~= entries_model(m@));
}

/// An array's value is the list of its items' values.
pub proof fn lemma_array_model(v: Vec<Cbor>)
    ensures
        Cbor::Array(v)@ == CborModel::Array(items_model(v@)),
{
    assert(Cbor::Array(v)@->Array_0 =~= items_model(v@));
}

/// The pair of an unsigned-integer key and a value.
pub open spec fn keyed(key: u64, value: CborModel) -> (CborModel, CborModel) {
    (CborModel::Uint(key), value)
}

/// The value under the unsigned-integer key `key` among the pairs from
/// index `i` on: that of the first pair with that key.
pub open spec fn value_from(entries: Seq<(CborModel, CborModel)>, key: u64, i: nat) -> Option<
    CborModel,
>
    decreases entries.len() - i,
{
    if i >= entries.len() {
        None
    } else if entries[i as int].0 == CborModel::Uint(key) {
        Some(entries[i as int].1)
    } else {
        value_from(entries, key, i + 1)
    }
}

/// The value under the unsigned-integer key `key` in a CBOR map (the first
/// pair with that key); `None` where the key is missing or `m` is no map.
pub open spec fn map_value(m: CborModel, key: u64) -> Option<CborModel> {
    match m {
        CborModel::Dict(entries) => value_from(entries, key, 0),
        _ => None,
    }
}

/// A text value that may be absent.
pub open spec fn opt_text_value(o: Option<Seq<char>>) -> Option<CborModel> {
    match o {
        Some(t) => Some(CborModel::Text(t)),
        None => None,
    }
}

/// The pair `key => text` when the text is present, nothing otherwise.
pub open spec fn opt_text_entry(key: u64, o: Option<Seq<char>>) -> Seq<(CborModel, CborModel)> {
    match o {
        Some(t) => seq![keyed(key, CborModel::Text(t))],
        None => seq![],
    }
}

/// Appends the pair `key => value` to a map under construction.
pub fn push_entry(m: &mut Vec<(Cbor, Cbor)>, key: u64, value: Cbor)
    ensures
        entries_model(final(m)@) == entries_model(old(m)@).push(keyed(key, value@)),
{
    let ghost v = value@;
    m.push((Cbor::Uint(key), value));
    assert(entries_model(m@) =~= entries_model(old(m)@).push(keyed(key, v)));
}

/// Appends the pair `key => text` when the text is present.
pub fn push_opt_text(m: &mut Vec<(Cbor, Cbor)>, key: u64, o: &Option<String>)
    ensures
        entries_model(final(m)@) == entries_model(old(m)@) + opt_text_entry(
            key,
            super::types::opt_text(*o),
        ),
{
    match o {
        Some(t) => {
            push_entry(m, key, Cbor::Text(t.clone()));
            assert(entries_model(m@) =~= entries_model(old(m)@) + opt_text_entry(
                key,
                super::types::opt_text(*o),
            ));
        },
        None => {
            assert(entries_model(m@) =~= entries_model(old(m)@) + opt_text_entry(
                key,
                super::types::opt_text(*o),
            ));
        },
    }
}

} // verus!
