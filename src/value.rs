//! Parameter values, records, parameter binding and row decoding.

use crate::schema::{FieldKind, ModelSchema};
use vstd::prelude::*;
use vstd::string::*;

verus! {

/// A value bound to a statement parameter, or read back from a row.
#[derive(Clone, Debug, PartialEq, Eq)]
pub enum ParameterValue {
    Boolean(bool),
    Int8(i8),
    Int16(i16),
    Int32(i32),
    Int64(i64),
    Uint8(u8),
    Uint16(u16),
    Uint32(u32),
    Uint64(u64),
    Str(String),
    Binary(Vec<u8>),
    DbNull,
}

/// The mathematical model of a parameter value.
pub enum ValueModel {
    Boolean(bool),
    Int8(i8),
    Int16(i16),
    Int32(i32),
    Int64(i64),
    Uint8(u8),
    Uint16(u16),
    Uint32(u32),
    Uint64(u64),
    Str(Seq<char>),
    Binary(Seq<u8>),
    DbNull,
}

impl View for ParameterValue {
    type V = ValueModel;

    open spec fn view(&self) -> ValueModel {
        match self {
            ParameterValue::Boolean(v) => ValueModel::Boolean(*v),
            ParameterValue::Int8(v) => ValueModel::Int8(*v),
            ParameterValue::Int16(v) => ValueModel::Int16(*v),
            ParameterValue::Int32(v) => ValueModel::Int32(*v),
            ParameterValue::Int64(v) => ValueModel::Int64(*v),
            ParameterValue::Uint8(v) => ValueModel::Uint8(*v),
            ParameterValue::Uint16(v) => ValueModel::Uint16(*v),
            ParameterValue::Uint32(v) => ValueModel::Uint32(*v),
            ParameterValue::Uint64(v) => ValueModel::Uint64(*v),
            ParameterValue::Str(v) => ValueModel::Str(v@),
            ParameterValue::Binary(v) => ValueModel::Binary(v@),
            ParameterValue::DbNull => ValueModel::DbNull,
        }
    }
}

/// The models of a sequence of values.
pub open spec fn models(v: Seq<ParameterValue>) -> Seq<ValueModel> {
    v.map_values(|x: ParameterValue| x@)
}

/// A record instance: one value per field of its schema, in field order.
#[derive(Clone, Debug, PartialEq, Eq)]
pub struct Record {
    pub values: Vec<ParameterValue>,
}

/// Why a row could not be decoded into a record.
#[derive(Debug, PartialEq, Eq)]
pub enum DecodeError {
    /// The row has `found` entries where `expected` fields need one each.
    ShortRow { expected: usize, found: usize },
    /// The entry at `index` does not hold the kind of its field.
    TypeMismatch { index: usize },
}

/// The field kind that a value belongs to; `None` for the null value.
pub open spec fn kind_of_value(v: ValueModel) -> Option<FieldKind> {
    match v {
        ValueModel::Boolean(_) => Some(FieldKind::Boolean),
        ValueModel::Int8(_) => Some(FieldKind::Int8),
        ValueModel::Int16(_) => Some(FieldKind::Int16),
        ValueModel::Int32(_) => Some(FieldKind::Int32),
        ValueModel::Int64(_) => Some(FieldKind::Int64),
        ValueModel::Uint8(_) => Some(FieldKind::Uint8),
        ValueModel::Uint16(_) => Some(FieldKind::Uint16),
        ValueModel::Uint32(_) => Some(FieldKind::Uint32),
        ValueModel::Uint64(_) => Some(FieldKind::Uint64),
        ValueModel::Str(_) => Some(FieldKind::Str),
        ValueModel::Binary(_) => Some(FieldKind::Binary),
        ValueModel::DbNull => None,
    }
}

fn copy_bytes(b: &Vec<u8>) -> (r: Vec<u8>)
    ensures
        r@ == b@,
{
    let mut out: Vec<u8> = Vec::new();
    for i in 0..b.len()
        invariant
            out@ == b@.take(i as int),
    {
        out.push(b[i]);
        assert(out@ =~= b@.take(i + 1));
    }
    assert(b@.take(b@.len() as int) =~= b@);
    out
}

impl ParameterValue {
    /// The kind of this value, `None` for the null value.
    pub fn kind(&self) -> (r: Option<FieldKind>)
        ensures
            r == kind_of_value(self@),
    {
        match self {
            ParameterValue::Boolean(_) => Some(FieldKind::Boolean),
            ParameterValue::Int8(_) => Some(FieldKind::Int8),
            ParameterValue::Int16(_) => Some(FieldKind::Int16),
            ParameterValue::Int32(_) => Some(FieldKind::Int32),
            ParameterValue::Int64(_) => Some(FieldKind::Int64),
            ParameterValue::Uint8(_) => Some(FieldKind::Uint8),
            ParameterValue::Uint16(_) => Some(FieldKind::Uint16),
            ParameterValue::Uint32(_) => Some(FieldKind::Uint32),
            ParameterValue::Uint64(_) => Some(FieldKind::Uint64),
            ParameterValue::Str(_) => Some(FieldKind::Str),
            ParameterValue::Binary(_) => Some(FieldKind::Binary),
            ParameterValue::DbNull => None,
        }
    }

    /// An equal copy of this value.
    pub fn duplicate(&self) -> (r: ParameterValue)
        ensures
            r@ == self@,
    {
        match self {
            ParameterValue::Boolean(v) => ParameterValue::Boolean(*v),
            ParameterValue::Int8(v) => ParameterValue::Int8(*v),
            ParameterValue::Int16(v) => ParameterValue::Int16(*v),
            ParameterValue::Int32(v) => ParameterValue::Int32(*v),
            ParameterValue::Int64(v) => ParameterValue::Int64(*v),
            ParameterValue::Uint8(v) => ParameterValue::Uint8(*v),
            ParameterValue::Uint16(v) => ParameterValue::Uint16(*v),
            ParameterValue::Uint32(v) => ParameterValue::Uint32(*v),
            ParameterValue::Uint64(v) => ParameterValue::Uint64(*v),
            ParameterValue::Str(v) => ParameterValue::Str(v.clone()),
            ParameterValue::Binary(v) => {
                ParameterValue::Binary(copy_bytes(v))
            },
            ParameterValue::DbNull => ParameterValue::DbNull,
        }
    }
}

impl ModelSchema {
    /// Whether `values` is an instance of this record type: one value per
    /// field, each of its field's kind.
    pub open spec fn admits(&self, values: Seq<ValueModel>) -> bool {
        &&& values.len() == self.fields@.len()
        &&& forall|i: int|
            0 <= i < values.len() ==> kind_of_value(#[trigger] values[i]) == Some(
                self.fields@[i].kind,
            )
    }

    /// The insert or update parameters of an instance: each field's value,
    /// tagged with its declared kind, in field order.
    pub open spec fn bound_params(&self, values: Seq<ValueModel>) -> Seq<ValueModel> {
        Seq::new(self.fields@.len(), |i: int| values[i])
    }

    /// Whether entry `i` of `row` is present and holds the kind of field `i`.
    pub open spec fn decodes_at(&self, row: Seq<ValueModel>, i: int) -> bool {
        &&& i < row.len()
        &&& kind_of_value(row[i]) == Some(self.fields@[i].kind)
    }

    /// Whether `k` is the first field whose row entry does not decode.
    pub open spec fn first_failure(&self, row: Seq<ValueModel>, k: int) -> bool {
        &&& 0 <= k < self.fields@.len()
        &&& !self.decodes_at(row, k)
        &&& forall|j: int| 0 <= j < k ==> #[trigger] self.decodes_at(row, j)
    }

    /// What decoding `row` gives: the field values when every field's entry is
    /// present and of its kind, else the error at the first field that fails.
    pub open spec fn decode_row(&self, row: Seq<ValueModel>) -> Result<
        Seq<ValueModel>,
        DecodeError,
    > {
        if forall|i: int| 0 <= i < self.fields@.len() ==> #[trigger] self.decodes_at(row, i) {
            Ok(row.take(self.fields@.len() as int))
        } else {
            let k = choose|k: int| self.first_failure(row, k);
            if k >= row.len() {
                Err(DecodeError::ShortRow { expected: self.fields@.len() as usize, found: row.len() as usize })
            } else {
                Err(DecodeError::TypeMismatch { index: k as usize })
            }
        }
    }

    /// Whether `values` is an instance of this record type.
    pub fn check_record(&self, values: &Vec<ParameterValue>) -> (r: bool)
        ensures
            r == self.admits(models(values@)),
    {
        if values.len() != self.fields.len() {
            return false;
        }
        for i in 0..values.len()
            invariant
                values@.len() == self.fields@.len(),
                forall|j: int|
                    0 <= j < i ==> kind_of_value(#[trigger] values@[j]@) == Some(
                        self.fields@[j].kind,
                    ),
        {
            assert(models(values@)[i as int] == values@[i as int]@);
            match values[i].kind() {
                Some(k) => {
                    if k != self.fields[i].kind {
                        return false;
                    }
                },
                None => {
                    return false;
                },
            }
        }
        assert(self.admits(models(values@))) by {
            assert forall|j: int| 0 <= j < values@.len() implies kind_of_value(
                #[trigger] models(values@)[j],
            ) == Some(self.fields@[j].kind) by {
                assert(models(values@)[j] == values@[j]@);
            }
        }
        true
    }

    fn bind_params(&self, record: &Record) -> (r: Vec<ParameterValue>)
        requires
            self.admits(models(record.values@)),
        ensures
            models(r@) == self.bound_params(models(record.values@)),
    {
        let mut out: Vec<ParameterValue> = Vec::new();
        let n = self.fields.len();
        for i in 0..n
            invariant
                n == self.fields@.len(),
                self.admits(models(record.values@)),
                models(out@) == self.bound_params(models(record.values@)).take(i as int),
        {
            let ghost before = out@;
            out.push(record.values[i].duplicate());
            assert(models(record.values@)[i as int] == record.values@[i as int]@);
            assert(models(out@) =~= models(before).push(out@[i as int]@));
            assert(models(out@) =~= self.bound_params(models(record.values@)).take(i + 1));
        }
        assert(self.bound_params(models(record.values@)).take(n as int) =~= self.bound_params(
            models(record.values@),
        ));
        out
    }

    /// The parameters of the insert statement for an instance, in field order.
    pub fn build_insert_params(&self, record: &Record) -> (r: Vec<ParameterValue>)
        requires
            self.admits(models(record.values@)),
        ensures
            models(r@) == self.bound_params(models(record.values@)),
    {
        self.bind_params(record)
    }

    /// The parameters of the update statement for an instance, in field order.
    pub fn build_update_params(&self, record: &Record) -> (r: Vec<ParameterValue>)
        requires
            self.admits(models(record.values@)),
        ensures
            models(r@) == self.bound_params(models(record.values@)),
    {
        self.bind_params(record)
    }

    /// Decodes a row, one entry per field in field order, into a record.
    /// Entries past the last field are not read.
    pub fn from_row(&self, row: Vec<ParameterValue>) -> (r: Result<Record, DecodeError>)
        ensures
            match r {
                Ok(rec) => self.decode_row(models(row@)) == Ok::<Seq<ValueModel>, DecodeError>(
                    models(rec.values@),
                ),
                Err(e) => self.decode_row(models(row@)) == Err::<Seq<ValueModel>, DecodeError>(e),
            },
    {
        let n = self.fields.len();
        let mut values: Vec<ParameterValue> = Vec::new();
        for i in 0..n
            invariant
                n == self.fields@.len(),
                models(values@) == models(row@).take(i as int),
                forall|j: int| 0 <= j < i ==> #[trigger] self.decodes_at(models(row@), j),
        {
            if i >= row.len() {
                proof {
                    assert(self.first_failure(models(row@), i as int));
                    self.lemma_first_failure_unique(models(row@), i as int);
                }
                return Err(DecodeError::ShortRow { expected: n, found: row.len() });
            }
            assert(models(row@)[i as int] == row@[i as int]@);
            let ok = match row[i].kind() {
                Some(k) => k == self.fields[i].kind,
                None => false,
            };
            if !ok {
                proof {
                    assert(self.first_failure(models(row@), i as int));
                    self.lemma_first_failure_unique(models(row@), i as int);
                }
                return Err(DecodeError::TypeMismatch { index: i });
            }
            let ghost before = values@;
            values.push(row[i].duplicate());
            assert(models(row@)[i as int] == row@[i as int]@);
            assert(models(values@) =~= models(before).push(values@[i as int]@));
            assert(models(values@) =~= models(row@).take(i + 1));
        }
        Ok(Record { values })
    }

    /// The first failing field is the one that decoding reports.
    pub proof fn lemma_first_failure_unique(&self, row: Seq<ValueModel>, k: int)
        requires
            self.first_failure(row, k),
        ensures
            !(forall|i: int| 0 <= i < self.fields@.len() ==> #[trigger] self.decodes_at(row, i)),
            (choose|c: int| self.first_failure(row, c)) == k,
    {
        let c = choose|c: int| self.first_failure(row, c);
        assert(self.first_failure(row, c));
        if c < k {
            assert(self.decodes_at(row, c));
        } else if c > k {
            assert(self.decodes_at(row, k));
        }
    }
}

/// The parameters of the get-one statement: the id, as text.
pub fn build_get_one_params(id: &str) -> (r: Vec<ParameterValue>)
    ensures
        r@.len() == 1,
        r@[0]@ == ValueModel::Str(id@),
{
    let mut v: Vec<ParameterValue> = Vec::new();
    v.push(ParameterValue::Str(String::from_str(id)));
    v
}

/// The parameters of the delete statement: the id, as text.
pub fn build_delete_params(id: &str) -> (r: Vec<ParameterValue>)
    ensures
        r@.len() == 1,
        r@[0]@ == ValueModel::Str(id@),
{
    let mut v: Vec<ParameterValue> = Vec::new();
    v.push(ParameterValue::Str(String::from_str(id)));
    v
}

/// Binding an instance's insert parameters and decoding a row made of them,
/// in the same order, gives back the instance.
pub proof fn lemma_insert_params_round_trip(schema: &ModelSchema, values: Seq<ValueModel>)
    requires
        schema.admits(values),
    ensures
        schema.decode_row(schema.bound_params(values)) == Ok::<Seq<ValueModel>, DecodeError>(
            values,
        ),
{
    let row = schema.bound_params(values);
    assert forall|i: int| 0 <= i < schema.fields@.len() implies #[trigger] schema.decodes_at(
        row,
        i,
    ) by {
        assert(kind_of_value(values[i]) == Some(schema.fields@[i].kind));
    }
    assert(row.take(schema.fields@.len() as int) =~= values);
}

impl ModelSchema {
    /// The get-one statement with its parameters.
    pub fn build_get_one_sql_and_params(&self, id: &str) -> (r: (String, Vec<ParameterValue>))
        ensures
            r.0@ == self.get_one_sql_spec(),
            r.1@.len() == 1,
            r.1@[0]@ == ValueModel::Str(id@),
    {
        (self.build_get_one_sql(), build_get_one_params(id))
    }

    /// The insert statement with the parameters of an instance.
    pub fn build_insert_sql_and_params(&self, record: &Record) -> (r: (String, Vec<ParameterValue>))
        requires
            self.admits(models(record.values@)),
        ensures
            r.0@ == self.insert_sql_spec(),
            models(r.1@) == self.bound_params(models(record.values@)),
    {
        (self.build_insert_sql(), self.build_insert_params(record))
    }

    /// The update statement with the parameters of an instance.
    pub fn build_update_sql_and_params(&self, record: &Record) -> (r: (String, Vec<ParameterValue>))
        requires
            self.admits(models(record.values@)),
        ensures
            r.0@ == self.update_sql_spec(),
            models(r.1@) == self.bound_params(models(record.values@)),
    {
        (self.build_update_sql(), self.build_update_params(record))
    }

    /// The delete statement with its parameters.
    pub fn build_delete_sql_and_params(&self, id: &str) -> (r: (String, Vec<ParameterValue>))
        ensures
            r.0@ == self.delete_sql_spec(),
            r.1@.len() == 1,
            r.1@[0]@ == ValueModel::Str(id@),
    {
        (self.build_delete_sql(), build_delete_params(id))
    }
}

} // verus!
