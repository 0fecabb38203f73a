//! The error envelope and its structured-text codec.
//!
//! An envelope is the canonical wire shape of a failure: a mapping with
//! exactly two keys, `error_type` (a stable identifier for the error's
//! shape) and `value` (the error's own serialized payload). The codec
//! between envelopes and structured-text values is symmetric: an
//! envelope serialized and deserialized again comes back unchanged.

use vstd::prelude::*;

verus! {

broadcast use vstd::std_specs::vec::group_vec_axioms, vstd::seq::group_seq_axioms;

/// A structured-text value: what the structured-text codec carries.
/// Envelope payloads are values of this shape; a payload may itself
/// hold a nested envelope.
#[derive(PartialEq, Eq, Debug)]
pub enum TextValue {
    /// The empty payload.
    Null,
    /// A boolean.
    Bool(bool),
    /// An unsigned integer.
    UInt(u64),
    /// A text string.
    Text(String),
    /// An ordered list of values.
    Items(Vec<TextValue>),
    /// An ordered mapping of string keys to values.
    Fields(Vec<TextField>),
}

/// One key-value entry of a mapping value.
#[derive(PartialEq, Eq, Debug)]
pub struct TextField {
    /// The entry's key.
    pub name: String,
    /// The entry's value.
    pub value: TextValue,
}

/// The mathematical model of a structured-text value.
#[verifier::ext_equal]
pub enum TextRepr {
    Null,
    Bool(bool),
    UInt(u64),
    Text(Seq<char>),
    Items(Seq<TextRepr>),
    Fields(Seq<FieldRepr>),
}

/// The mathematical model of one mapping entry.
#[verifier::ext_equal]
pub struct FieldRepr {
    pub name: Seq<char>,
    pub value: TextRepr,
}

/// The model of a list of values, elementwise.
pub open spec fn items_repr(xs: Seq<TextValue>) -> Seq<TextRepr>
    decreases xs,
{
    Seq::new(
        xs.len(),
        |i: int|
            if 0 <= i < xs.len() {
                text_repr(xs[i])
            } else {
                TextRepr::Null
            },
    )
}

/// The model of a list of mapping entries, entrywise.
pub open spec fn fields_repr(fs: Seq<TextField>) -> Seq<FieldRepr>
    decreases fs,
{
    Seq::new(
        fs.len(),
        |i: int|
            if 0 <= i < fs.len() {
                FieldRepr { name: fs[i].name@, value: text_repr(fs[i].value) }
            } else {
                FieldRepr { name: Seq::empty(), value: TextRepr::Null }
            },
    )
}

/// The model of a structured-text value.
pub open spec fn text_repr(v: TextValue) -> TextRepr
    decreases v,
{
    match v {
        TextValue::Null => TextRepr::Null,
        TextValue::Bool(b) => TextRepr::Bool(b),
        TextValue::UInt(u) => TextRepr::UInt(u),
        TextValue::Text(s) => TextRepr::Text(s@),
        TextValue::Items(xs) => TextRepr::Items(items_repr(xs@)),
        TextValue::Fields(fs) => TextRepr::Fields(fields_repr(fs@)),
    }
}

impl DeepView for TextValue {
    type V = TextRepr;

    open spec fn deep_view(&self) -> TextRepr {
        text_repr(*self)
    }
}

impl DeepView for TextField {
    type V = FieldRepr;

    open spec fn deep_view(&self) -> FieldRepr {
        FieldRepr { name: self.name@, value: text_repr(self.value) }
    }
}

/// The canonical wire representation of an error: its stable type tag
/// and its serialized payload.
#[derive(PartialEq, Eq, Debug)]
pub struct ErrorEnvelope {
    /// A stable, globally unique identifier for the error's shape,
    /// derived from the defining location and the type's name alone.
    pub error_type: String,
    /// The error's own serialized payload.
    pub value: TextValue,
}

/// The mathematical model of an envelope.
#[verifier::ext_equal]
pub struct EnvelopeRepr {
    pub error_type: Seq<char>,
    pub value: TextRepr,
}

impl DeepView for ErrorEnvelope {
    type V = EnvelopeRepr;

    open spec fn deep_view(&self) -> EnvelopeRepr {
        EnvelopeRepr { error_type: self.error_type@, value: self.value.deep_view() }
    }
}

/// The first key of the envelope mapping.
pub open spec fn error_type_key() -> Seq<char> {
    "error_type"@
}

/// The second key of the envelope mapping.
pub open spec fn value_key() -> Seq<char> {
    "value"@
}

/// What serializing an envelope yields: a mapping with exactly the two
/// canonical keys, in order.
pub open spec fn spec_serialize_envelope(e: EnvelopeRepr) -> TextRepr {
    TextRepr::Fields(
        seq![
            FieldRepr { name: error_type_key(), value: TextRepr::Text(e.error_type) },
            FieldRepr { name: value_key(), value: e.value },
        ],
    )
}

/// What deserializing a structured-text value yields: the envelope,
/// exactly when the value has the canonical two-key shape.
pub open spec fn spec_deserialize_envelope(t: TextRepr) -> Option<EnvelopeRepr> {
    match t {
        TextRepr::Fields(fs) => {
            if fs.len() == 2 && fs[0].name == error_type_key() && fs[0].value is Text
                && fs[1].name == value_key() {
                Option::Some(EnvelopeRepr { error_type: fs[0].value->Text_0, value: fs[1].value })
            } else {
                Option::None
            }
        },
        _ => Option::None,
    }
}

/// Serialize an envelope into the canonical two-key mapping value.
pub fn serialize_envelope(env: ErrorEnvelope) -> (r: TextValue)
    ensures
        r.deep_view() == spec_serialize_envelope(env.deep_view()),
{
    let mut fields: Vec<TextField> = Vec::new();
    fields.push(
        TextField { name: String::from_str("error_type"), value: TextValue::Text(env.error_type) },
    );
    fields.push(TextField { name: String::from_str("value"), value: env.value });
    let r = TextValue::Fields(fields);
    proof {
        let lhs = fields_repr(fields@);
        let rhs = seq![
            FieldRepr { name: error_type_key(), value: TextRepr::Text(env.error_type@) },
            FieldRepr { name: value_key(), value: text_repr(env.value) },
        ];
        assert(lhs.len() == 2);
        assert(lhs[0] =~~= rhs[0]);
        assert(lhs[1] =~~= rhs[1]);
        assert(lhs =~~= rhs);
        assert(r.deep_view() =~~= spec_serialize_envelope(env.deep_view()));
    }
    r
}

/// Deserialize a structured-text value back into an envelope; refuses
/// every value that is not shaped as a canonical envelope mapping.
pub fn deserialize_envelope(v: TextValue) -> (r: Option<ErrorEnvelope>)
    ensures
        r.deep_view() == spec_deserialize_envelope(v.deep_view()),
{
    let ghost v0 = v;
    match v {
        TextValue::Fields(mut fs) => {
            let ghost fs0 = fs@;
            proof {
                assert(v0.deep_view() == TextRepr::Fields(fields_repr(fs0)));
            }
            if fs.len() == 2 {
                let second = fs.pop();
                let first = fs.pop();
                match (first, second) {
                    (Some(f1), Some(f2)) => {
                        proof {
                            assert(f1 == fs0[0] && f2 == fs0[1]);
                        }
                        let error_type_name = String::from_str("error_type");
                        let value_name = String::from_str("value");
                        if f1.name == error_type_name && f2.name == value_name {
                            match f1.value {
                                TextValue::Text(et) => Some(
                                    ErrorEnvelope { error_type: et, value: f2.value },
                                ),
                                TextValue::Null => None,
                                TextValue::Bool(_) => None,
                                TextValue::UInt(_) => None,
                                TextValue::Items(_) => None,
                                TextValue::Fields(_) => None,
                            }
                        } else {
                            None
                        }
                    },
                    _ => None,
                }
            } else {
                None
            }
        },
        TextValue::Null => None,
        TextValue::Bool(_) => None,
        TextValue::UInt(_) => None,
        TextValue::Text(_) => None,
        TextValue::Items(_) => None,
    }
}

/// Envelope round trip for the structured-text codec: deserializing a
/// serialized envelope yields the envelope back, for every envelope.
pub proof fn lemma_envelope_round_trip(e: EnvelopeRepr)
    ensures
        spec_deserialize_envelope(spec_serialize_envelope(e)) == Option::Some(e),
{
}

impl Clone for TextValue {
    /// A clone carries the same model: lists and mappings are copied
    /// entry by entry.
    #[verifier::loop_isolation(false)]
    fn clone(&self) -> (res: Self)
        ensures
            res.deep_view() == self.deep_view(),
        decreases *self,
    {
        match self {
            TextValue::Null => TextValue::Null,
            TextValue::Bool(b) => TextValue::Bool(*b),
            TextValue::UInt(u) => TextValue::UInt(*u),
            TextValue::Text(s) => TextValue::Text(s.clone()),
            TextValue::Items(xs) => {
                let mut out: Vec<TextValue> = Vec::new();
                let mut i: usize = 0;
                while i < xs.len()
                    invariant
                        i <= xs.len(),
                        out@.len() == i,
                        forall|j: int|
                            0 <= j < i ==> text_repr(out@[j]) == text_repr(xs@[j]),
                    decreases xs.len() - i,
                {
                    proof {
                        assert(decreases_to!(*self => *xs));
                        assert(decreases_to!(*xs => xs@[i as int]));
                    }
                    out.push(xs[i].clone());
                    i = i + 1;
                }
                proof {
                    assert(items_repr(out@) =~= items_repr(xs@));
                }
                TextValue::Items(out)
            },
            TextValue::Fields(fs) => {
                let mut out: Vec<TextField> = Vec::new();
                let mut i: usize = 0;
                while i < fs.len()
                    invariant
                        i <= fs.len(),
                        out@.len() == i,
                        forall|j: int|
                            0 <= j < i ==> out@[j].name@ == fs@[j].name@ && text_repr(
                                out@[j].value,
                            ) == text_repr(fs@[j].value),
                    decreases fs.len() - i,
                {
                    proof {
                        assert(decreases_to!(*self => *fs));
                        assert(decreases_to!(*fs => fs@[i as int]));
                        assert(decreases_to!(fs@[i as int] => fs@[i as int].value));
                    }
                    out.push(
                        TextField { name: fs[i].name.clone(), value: fs[i].value.clone() },
                    );
                    i = i + 1;
                }
                proof {
                    assert(fields_repr(out@) =~= fields_repr(fs@));
                }
                TextValue::Fields(out)
            },
        }
    }
}

/// The canonical payload of an error that carries one message field.
pub open spec fn spec_message_payload(m: Seq<char>) -> TextRepr {
    TextRepr::Fields(seq![FieldRepr { name: "message"@, value: TextRepr::Text(m) }])
}

/// Build the canonical one-field message payload.
pub fn message_payload(message: String) -> (r: TextValue)
    ensures
        r.deep_view() == spec_message_payload(message@),
{
    let mut fields: Vec<TextField> = Vec::new();
    fields.push(TextField { name: String::from_str("message"), value: TextValue::Text(message) });
    let r = TextValue::Fields(fields);
    proof {
        let lhs = fields_repr(fields@);
        let rhs = seq![FieldRepr { name: "message"@, value: TextRepr::Text(message@) }];
        assert(lhs.len() == 1);
        assert(lhs[0] =~~= rhs[0]);
        assert(lhs =~~= rhs);
        assert(r.deep_view() =~~= spec_message_payload(message@));
    }
    r
}

#[verifier::external_type_specification]
#[verifier::external_body]
pub struct ExJsonValue(serde_json::Value);

/// The structured-text rendering of a value: what serde_json's
/// serializer prints for it, a function of the value alone.
pub uninterp spec fn json_text_of(v: TextRepr) -> Seq<char>;

/// Relies on serde_json::Value's constructors: each variant of a
/// structured-text value is carried over to the matching variant of
/// serde_json's self-describing value, one for one.
#[verifier::external_body]
fn to_serde_json_value(v: &TextValue) -> serde_json::Value {
    match v {
        TextValue::Null => serde_json::Value::Null,
        TextValue::Bool(b) => serde_json::Value::Bool(*b),
        TextValue::UInt(u) => serde_json::Value::from(*u),
        TextValue::Text(s) => serde_json::Value::String(s.clone()),
        TextValue::Items(xs) => serde_json::Value::Array(
            xs.iter().map(to_serde_json_value).collect(),
        ),
        TextValue::Fields(fs) => serde_json::Value::Object(
            fs.iter().map(|f| (f.name.clone(), to_serde_json_value(&f.value))).collect(),
        ),
    }
}

/// Relies on serde_json::to_string: rendering a self-describing value
/// built without non-finite numbers cannot fail, and the text depends
/// on the value alone.
#[verifier::external_body]
pub fn to_json_text(v: &TextValue) -> (r: String)
    ensures
        r@ == json_text_of(v.deep_view()),
{
    match serde_json::to_string(&to_serde_json_value(v)) {
        Ok(s) => s,
        Err(_) => String::new(),
    }
}

} // verus!
