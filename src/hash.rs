//! Identity and content digest of record instances. An instance is written as
//! a JSON object from field name to value, and that text is digested in a
//! canonical form, so equal instances always get equal digests.

use crate::schema::ModelSchema;
use crate::sql::{joined, lemma_joined_step};
use crate::text::{decimal, push_decimal, push_signed_decimal, signed_decimal};
use crate::value::{models, ParameterValue, Record, ValueModel};
use vstd::prelude::*;
use vstd::string::*;

verus! {

#[verifier::external_type_specification]
#[verifier::external_body]
pub struct ExJsonError(serde_json::Error);

#[verifier::external_type_specification]
#[verifier::external_body]
pub struct ExJsonDigestError(json_digest::JsonDigestError);

/// A lowercase hexadecimal digit.
pub open spec fn hex_digit(d: nat) -> char {
    seq!['0', '1', '2', '3', '4', '5', '6', '7', '8', '9', 'a', 'b', 'c', 'd', 'e', 'f'][d as int]
}

/// How one character is written inside a JSON string literal: quote,
/// backslash and the control characters are escaped, `\b`, `\f`, `\n`, `\r`,
/// `\t` by name and the other controls as `\u00` and two hex digits.
pub open spec fn escape_char(c: char) -> Seq<char> {
    if c == '"' {
        seq!['\\', '"']
    } else if c == '\\' {
        seq!['\\', '\\']
    } else if c == '\u{8}' {
        seq!['\\', 'b']
    } else if c == '\u{c}' {
        seq!['\\', 'f']
    } else if c == '\n' {
        seq!['\\', 'n']
    } else if c == '\r' {
        seq!['\\', 'r']
    } else if c == '\t' {
        seq!['\\', 't']
    } else if (c as u32) < 32 {
        seq!['\\', 'u', '0', '0', hex_digit((c as u32 / 16) as nat), hex_digit((c as u32 % 16) as nat)]
    } else {
        seq![c]
    }
}

/// A text with each character escaped for a JSON string literal.
pub open spec fn escaped(s: Seq<char>) -> Seq<char>
    decreases s.len(),
{
    if s.len() == 0 {
        Seq::empty()
    } else {
        escaped(s.drop_last()) + escape_char(s.last())
    }
}

/// A text as a JSON string literal: quoted, each character escaped.
pub open spec fn json_quoted(s: Seq<char>) -> Seq<char> {
    seq!['"'] + escaped(s) + seq!['"']
}

/// What parsing a JSON text and digesting it with `json_digest::digest_data`
/// gives: the digest, or `None` where either step refuses.
pub uninterp spec fn digest_outcome(text: Seq<char>) -> Option<Seq<char>>;

/// Relies on `serde_json::to_string` on a `&str`: the literal that
/// `json_quoted` states, after serde_json's escape table. Its only error path is an I/O error of the output buffer, a
/// `Vec<u8>`, which never fails.
#[verifier::external_body]
fn json_quote(s: &str) -> (r: Result<String, serde_json::Error>)
    ensures
        r is Ok,
        r is Ok ==> r->Ok_0@ == json_quoted(s@),
{
    serde_json::to_string(s)
}

/// Relies on `serde_json::from_str` into a `serde_json::Value` and on
/// `json_digest::digest_data` of that value, which puts string values into
/// Unicode NFKD form before hashing: the digest of a JSON text, or an error,
/// both determined by the text alone.
#[verifier::external_body]
fn digest_json(text: &str) -> (r: Result<String, json_digest::JsonDigestError>)
    ensures
        match r {
            Ok(h) => digest_outcome(text@) == Some(h@),
            Err(_) => digest_outcome(text@) is None,
        },
{
    match serde_json::from_str::<serde_json::Value>(text) {
        Ok(v) => json_digest::digest_data(&v),
        Err(e) => Err(json_digest::JsonDigestError::Json(e)),
    }
}

/// Why a digest could not be computed.
#[derive(Debug, PartialEq, Eq)]
pub enum HashError {
    /// The digest function refused the record's JSON text.
    Digest,
}

/// A value as JSON.
pub open spec fn json_value(v: ValueModel) -> Seq<char> {
    match v {
        ValueModel::Boolean(b) => if b {
            "true"@
        } else {
            "false"@
        },
        ValueModel::Int8(x) => signed_decimal(x as int),
        ValueModel::Int16(x) => signed_decimal(x as int),
        ValueModel::Int32(x) => signed_decimal(x as int),
        ValueModel::Int64(x) => signed_decimal(x as int),
        ValueModel::Uint8(x) => decimal(x as nat),
        ValueModel::Uint16(x) => decimal(x as nat),
        ValueModel::Uint32(x) => decimal(x as nat),
        ValueModel::Uint64(x) => decimal(x as nat),
        ValueModel::Str(s) => json_quoted(s),
        ValueModel::Binary(b) => "["@ + joined(
            Seq::new(b.len(), |i: int| decimal(b[i] as nat)),
            ","@,
        ) + "]"@,
        ValueModel::DbNull => "null"@,
    }
}

/// One member `"name":value` of a JSON object.
pub open spec fn json_member(name: Seq<char>, v: ValueModel) -> Seq<char> {
    json_quoted(name) + ":"@ + json_value(v)
}

/// Appends `v` as JSON to `s`.
fn push_json_value(s: &mut String, v: &ParameterValue)
    ensures
        final(s)@ == old(s)@ + json_value(v@),
{
    match v {
        ParameterValue::Boolean(b) => {
            if *b {
                s.append("true");
            } else {
                s.append("false");
            }
        },
        ParameterValue::Int8(x) => push_signed_decimal(s, *x as i64),
        ParameterValue::Int16(x) => push_signed_decimal(s, *x as i64),
        ParameterValue::Int32(x) => push_signed_decimal(s, *x as i64),
        ParameterValue::Int64(x) => push_signed_decimal(s, *x),
        ParameterValue::Uint8(x) => push_decimal(s, *x as u64),
        ParameterValue::Uint16(x) => push_decimal(s, *x as u64),
        ParameterValue::Uint32(x) => push_decimal(s, *x as u64),
        ParameterValue::Uint64(x) => push_decimal(s, *x),
        ParameterValue::Str(x) => {
            match json_quote(x.as_str()) {
                Ok(q) => s.append(q.as_str()),
                Err(_) => {},
            }
        },
        ParameterValue::Binary(b) => {
            let ghost items = Seq::new(b@.len(), |i: int| decimal(b@[i] as nat));
            let ghost start = s@;
            s.append("[");
            let ghost open = s@;
            for i in 0..b.len()
                invariant
                    items == Seq::new(b@.len(), |i: int| decimal(b@[i] as nat)),
                    s@ == open + joined(items.take(i as int), ","@),
            {
                proof {
                    lemma_joined_step(items, ","@, i as int);
                }
                if i > 0 {
                    s.append(",");
                }
                push_decimal(s, b[i] as u64);
            }
            assert(items.take(b@.len() as int) =~= items);
            s.append("]");
            assert(s@ =~= start + json_value(v@));
        },
        ParameterValue::DbNull => s.append("null"),
    }
}

impl ModelSchema {
    /// The JSON object of an instance: each field's name mapped to its value,
    /// in field order.
    pub open spec fn record_json_spec(&self, values: Seq<ValueModel>) -> Seq<char> {
        "{"@ + joined(
            Seq::new(self.fields@.len(), |i: int| json_member(self.fields@[i].name@, values[i])),
            ","@,
        ) + "}"@
    }

    /// The content digest of an instance, or `None` where the digest function
    /// refuses its JSON text.
    pub open spec fn content_digest(&self, values: Seq<ValueModel>) -> Option<Seq<char>> {
        digest_outcome(self.record_json_spec(values))
    }

    /// The JSON object of an instance.
    pub fn record_json(&self, record: &Record) -> (r: String)
        requires
            record.values@.len() == self.fields@.len(),
        ensures
            r@ == self.record_json_spec(models(record.values@)),
    {
        let ghost vals = models(record.values@);
        let ghost items = Seq::new(
            self.fields@.len(),
            |i: int| json_member(self.fields@[i].name@, vals[i]),
        );
        let n = self.fields.len();
        let mut s = String::from_str("{");
        let ghost open = s@;
        for i in 0..n
            invariant
                n == self.fields@.len(),
                record.values@.len() == n,
                vals == models(record.values@),
                items == Seq::new(
                    self.fields@.len(),
                    |i: int| json_member(self.fields@[i].name@, vals[i]),
                ),
                s@ == open + joined(items.take(i as int), ","@),
        {
            proof {
                lemma_joined_step(items, ","@, i as int);
            }
            if i > 0 {
                s.append(",");
            }
            let ghost before = s@;
            match json_quote(self.fields[i].name.as_str()) {
                Ok(q) => s.append(q.as_str()),
                Err(_) => {},
            }
            s.append(":");
            push_json_value(&mut s, &record.values[i]);
            assert(vals[i as int] == record.values@[i as int]@);
            assert(s@ =~= before + items[i as int]);
        }
        assert(items.take(n as int) =~= items);
        s.append("}");
        s
    }

    /// The content digest of an instance: the digest of its JSON object.
    pub fn calc_hash(&self, record: &Record) -> (r: Result<String, HashError>)
        requires
            record.values@.len() == self.fields@.len(),
        ensures
            match r {
                Ok(h) => self.content_digest(models(record.values@)) == Some(h@),
                Err(e) => e == HashError::Digest && self.content_digest(models(record.values@))
                    is None,
            },
    {
        let text = self.record_json(record);
        match digest_json(text.as_str()) {
            Ok(h) => Ok(h),
            Err(_) => Err(HashError::Digest),
        }
    }
}

impl ModelSchema {
    /// Whether field `i` is the identity field: named `id` and holding text.
    pub open spec fn is_id_at(&self, values: Seq<ValueModel>, i: int) -> bool {
        &&& self.fields@[i].name@ == "id"@
        &&& values[i] is Str
    }

    /// The identity of an instance: the text of its first field named `id`
    /// that holds text, or `None` when it has none.
    pub fn id(&self, record: &Record) -> (r: Option<String>)
        requires
            record.values@.len() == self.fields@.len(),
        ensures
            match r {
                Some(s) => exists|i: int|
                    {
                        &&& 0 <= i < self.fields@.len()
                        &&& #[trigger] self.is_id_at(models(record.values@), i)
                        &&& models(record.values@)[i] == ValueModel::Str(s@)
                        &&& forall|j: int|
                            0 <= j < i ==> !#[trigger] self.is_id_at(models(record.values@), j)
                    },
                None => forall|i: int|
                    0 <= i < self.fields@.len() ==> !#[trigger] self.is_id_at(
                        models(record.values@),
                        i,
                    ),
            },
    {
        let key = String::from_str("id");
        let n = self.fields.len();
        for i in 0..n
            invariant
                n == self.fields@.len(),
                record.values@.len() == n,
                key@ == "id"@,
                forall|j: int| 0 <= j < i ==> !#[trigger] self.is_id_at(models(record.values@), j),
        {
            assert(models(record.values@)[i as int] == record.values@[i as int]@);
            if self.fields[i].name == key {
                match &record.values[i] {
                    ParameterValue::Str(s) => {
                        let out = s.clone();
                        assert(self.is_id_at(models(record.values@), i as int));
                        assert(models(record.values@)[i as int] == ValueModel::Str(out@));
                        return Some(out);
                    },
                    _ => {},
                }
            }
        }
        None
    }
}

/// Equal instances have equal content digests: computing the digest of an
/// unchanged instance twice gives the same result.
pub proof fn lemma_digest_deterministic(
    schema: &ModelSchema,
    a: Seq<ValueModel>,
    b: Seq<ValueModel>,
)
    requires
        a == b,
    ensures
        schema.content_digest(a) == schema.content_digest(b),
{
}

} // verus!
