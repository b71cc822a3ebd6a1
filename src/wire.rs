use vstd::prelude::*;

verus! {

#[verifier::external_type_specification]
#[verifier::external_body]
pub struct ExJsonValue(serde_json::Value);

/// A JSON value as the library builds it for the wire.
///
/// `Json` carries a value that the caller produced already (an event
/// handler, a frame) and that the library passes on without reading it.
pub enum WireValue {
    Text(String),
    Integer(i64),
    Flag(bool),
    Bytes(Vec<u8>),
    List(Vec<WireValue>),
    Object(Vec<WireField>),
    Json(serde_json::Value),
}

/// One key of a JSON object together with its value.
pub struct WireField {
    pub key: String,
    pub value: WireValue,
}

/// The mathematical form of a wire value.
pub enum JsonModel {
    Text(Seq<char>),
    Integer(int),
    Flag(bool),
    Bytes(Seq<u8>),
    List(Seq<JsonModel>),
    Object(Seq<(Seq<char>, JsonModel)>),
    Json(serde_json::Value),
}

impl WireValue {
    pub open spec fn model(self) -> JsonModel
        decreases self,
    {
        match self {
            WireValue::Text(s) => JsonModel::Text(s@),
            WireValue::Integer(i) => JsonModel::Integer(i as int),
            WireValue::Flag(b) => JsonModel::Flag(b),
            WireValue::Bytes(b) => JsonModel::Bytes(b@),
            WireValue::List(items) => JsonModel::List(
                Seq::new(
                    items@.len(),
                    |i: int|
                        if 0 <= i < items.len() {
                            items[i].model()
                        } else {
                            JsonModel::Flag(false)
                        },
                ),
            ),
            WireValue::Object(fields) => JsonModel::Object(
                Seq::new(
                    fields@.len(),
                    |i: int|
                        if 0 <= i < fields.len() {
                            (fields[i].key@, fields[i].value.model())
                        } else {
                            (Seq::empty(), JsonModel::Flag(false))
                        },
                ),
            ),
            WireValue::Json(v) => JsonModel::Json(v),
        }
    }
}

/// The entries of an object built from `fields`, in order.
pub open spec fn entries(fields: Seq<WireField>) -> Seq<(Seq<char>, JsonModel)> {
    Seq::new(fields.len(), |i: int| (fields[i].key@, fields[i].value.model()))
}

/// The model of an optional value.
pub open spec fn option_model(v: Option<WireValue>) -> Option<JsonModel> {
    match v {
        Some(x) => Some(x.model()),
        None => None,
    }
}

/// The entry for `key` when a value is present, and nothing when it is absent.
pub open spec fn optional_entry(key: Seq<char>, v: Option<JsonModel>) -> Seq<(Seq<char>, JsonModel)> {
    match v {
        Some(x) => seq![(key, x)],
        None => Seq::empty(),
    }
}

/// The entry `key: "s"`.
pub open spec fn text_entry(key: Seq<char>, s: Seq<char>) -> (Seq<char>, JsonModel) {
    (key, JsonModel::Text(s))
}

pub proof fn lemma_object_model(fields: Vec<WireField>)
    ensures
        WireValue::Object(fields).model() == JsonModel::Object(entries(fields@)),
{
    assert(WireValue::Object(fields).model()->Object_0 =~= entries(fields@));
}

pub proof fn lemma_list_model(items: Vec<WireValue>)
    ensures
        WireValue::List(items).model() == JsonModel::List(
            Seq::new(items@.len(), |i: int| items@[i].model()),
        ),
{
    assert(WireValue::List(items).model()->List_0 =~= Seq::new(
        items@.len(),
        |i: int| items@[i].model(),
    ));
}

/// Appends the entry `key: value`.
pub fn push_field(fields: &mut Vec<WireField>, key: &str, value: WireValue)
    ensures
        entries(final(fields)@) == entries(old(fields)@).push((key@, value.model())),
{
    let ghost m = value.model();
    fields.push(WireField { key: key.to_owned(), value });
    assert(entries(fields@) =~= entries(old(fields)@).push((key@, m)));
}

/// Appends the entry `key: value` when a value is given; leaves the fields
/// as they are otherwise.
pub fn push_optional(fields: &mut Vec<WireField>, key: &str, value: Option<WireValue>)
    ensures
        entries(final(fields)@) == entries(old(fields)@) + optional_entry(key@, option_model(value)),
{
    match value {
        Some(v) => {
            push_field(fields, key, v);
        },
        None => {
            assert(entries(fields@) =~= entries(fields@) + Seq::<(Seq<char>, JsonModel)>::empty());
        },
    }
}

/// The value under `key` in an object's entries: that of the first entry
/// with that key, or `None` where no entry has it.
pub open spec fn lookup(es: Seq<(Seq<char>, JsonModel)>, key: Seq<char>) -> Option<JsonModel>
    decreases es.len(),
{
    if es.len() == 0 {
        None
    } else if es[0].0 == key {
        Some(es[0].1)
    } else {
        lookup(es.drop_first(), key)
    }
}

/// The value under `key` in `m`, where `m` is an object.
pub open spec fn field_of(m: JsonModel, key: Seq<char>) -> Option<JsonModel> {
    match m {
        JsonModel::Object(es) => lookup(es, key),
        _ => None,
    }
}

pub broadcast proof fn lemma_lookup_concat(
    s1: Seq<(Seq<char>, JsonModel)>,
    s2: Seq<(Seq<char>, JsonModel)>,
    key: Seq<char>,
)
    ensures
        #[trigger] lookup(s1 + s2, key) == (match lookup(s1, key) {
            Some(v) => Some(v),
            None => lookup(s2, key),
        }),
    decreases s1.len(),
{
    if s1.len() == 0 {
        assert(s1 + s2 =~= s2);
    } else {
        assert((s1 + s2).drop_first() =~= s1.drop_first() + s2);
        lemma_lookup_concat(s1.drop_first(), s2, key);
    }
}

pub broadcast proof fn lemma_lookup_optional(k: Seq<char>, v: Option<JsonModel>, key: Seq<char>)
    ensures
        #[trigger] lookup(optional_entry(k, v), key) == (if k == key {
            v
        } else {
            None
        }),
{
    match v {
        Some(x) => {
            lemma_lookup_single(k, x, key);
        },
        None => {
            assert(lookup(optional_entry(k, v), key) == None::<JsonModel>);
        },
    }
}

pub broadcast proof fn lemma_lookup_single(k: Seq<char>, v: JsonModel, key: Seq<char>)
    ensures
        #[trigger] lookup(seq![(k, v)], key) == (if k == key {
            Some(v)
        } else {
            None
        }),
{
    let s = seq![(k, v)];
    assert(s.drop_first() =~= Seq::<(Seq<char>, JsonModel)>::empty());
    assert(lookup(s.drop_first(), key) == None::<JsonModel>);
    assert(s[0] == (k, v));
}

pub broadcast group group_lookup {
    lemma_lookup_concat,
    lemma_lookup_optional,
    lemma_lookup_single,
}

} // verus!
