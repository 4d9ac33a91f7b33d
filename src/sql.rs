//! Table name, column list, placeholders and the SQL statement templates
//! derived from a schema.

use crate::schema::ModelSchema;
use crate::text::{decimal, digit_char, push_decimal};
use vstd::prelude::*;
use vstd::string::*;

verus! {

/// What `str::to_lowercase` returns for a text.
pub uninterp spec fn lower_of(s: Seq<char>) -> Seq<char>;

/// Relies on `str::to_lowercase`: the lowercase form of a text, which depends
/// on its characters alone.
#[verifier::external_body]
fn lowercase(s: &str) -> (r: String)
    ensures
        r@ == lower_of(s@),
{
    s.to_lowercase()
}

/// `items` with `sep` between each two neighbours.
pub open spec fn joined(items: Seq<Seq<char>>, sep: Seq<char>) -> Seq<char>
    decreases items.len(),
{
    if items.len() == 0 {
        Seq::empty()
    } else if items.len() == 1 {
        items[0]
    } else {
        joined(items.drop_last(), sep) + sep + items.last()
    }
}

/// `items` separated by a comma and a space.
pub open spec fn comma_list(items: Seq<Seq<char>>) -> Seq<char> {
    joined(items, ", "@)
}

/// The positional placeholder `$k`.
pub open spec fn placeholder(k: nat) -> Seq<char> {
    "$"@ + decimal(k)
}

/// The placeholders `$1` to `$n`, in order.
pub open spec fn placeholders(n: nat) -> Seq<Seq<char>> {
    Seq::new(n, |i: int| placeholder((i + 1) as nat))
}

/// `name = $k` for each name, `k` being its 1-based position.
pub open spec fn assignments(names: Seq<Seq<char>>) -> Seq<Seq<char>> {
    Seq::new(names.len(), |i: int| names[i] + " = "@ + placeholder((i + 1) as nat))
}

/// Appending one more item to a prefix of `items` extends its joined text.
pub proof fn lemma_joined_step(items: Seq<Seq<char>>, sep: Seq<char>, i: int)
    requires
        0 <= i < items.len(),
    ensures
        joined(items.take(i + 1), sep) == if i == 0 {
            items[0]
        } else {
            joined(items.take(i), sep) + sep + items[i]
        },
{
    assert(items.take(i + 1).drop_last() =~= items.take(i));
    assert(items.take(i + 1).last() == items[i]);
    if i == 0 {
        assert(items.take(1)[0] == items[0]);
    }
}

impl ModelSchema {
    /// The table name: the lowercase type name.
    pub open spec fn table_spec(&self) -> Seq<char> {
        lower_of(self.model_type@)
    }

    /// The column list: the field names in order, comma-separated.
    pub open spec fn field_names_spec(&self) -> Seq<char> {
        comma_list(self.names())
    }

    /// `$1, $2, ..., $N` for the N fields.
    pub open spec fn row_placeholders_spec(&self) -> Seq<char> {
        comma_list(placeholders(self.fields@.len()))
    }

    /// `name1 = $1, name2 = $2, ...` over all fields in order.
    pub open spec fn update_placeholders_spec(&self) -> Seq<char> {
        comma_list(assignments(self.names()))
    }

    pub open spec fn get_one_sql_spec(&self) -> Seq<char> {
        "SELECT "@ + self.field_names_spec() + " FROM "@ + self.table_spec() + " WHERE id = $1"@
    }

    pub open spec fn get_list_sql_spec(&self, limit: Option<u64>, offset: Option<u64>) -> Seq<char> {
        let query = "SELECT "@ + self.field_names_spec() + " FROM "@ + self.table_spec();
        match (limit, offset) {
            (Some(l), Some(o)) => query + " LIMIT "@ + decimal(l as nat) + " OFFSET "@ + decimal(
                o as nat,
            ),
            (Some(l), None) => query + " LIMIT "@ + decimal(l as nat),
            _ => query,
        }
    }

    pub open spec fn insert_sql_spec(&self) -> Seq<char> {
        "INSERT INTO "@ + self.table_spec() + "("@ + self.field_names_spec() + ") VALUES ("@
            + self.row_placeholders_spec() + ")"@
    }

    pub open spec fn update_sql_spec(&self) -> Seq<char> {
        "UPDATE "@ + self.table_spec() + " SET "@ + self.update_placeholders_spec()
            + " WHERE id = $1"@
    }

    pub open spec fn delete_sql_spec(&self) -> Seq<char> {
        "DELETE FROM "@ + self.table_spec() + " WHERE id = $1"@
    }

    /// The table name of the model.
    pub fn model_name(&self) -> (r: String)
        ensures
            r@ == self.table_spec(),
    {
        lowercase(self.model_type.as_str())
    }

    /// The field names of the model, comma-separated, in declaration order.
    pub fn field_names(&self) -> (r: String)
        ensures
            r@ == self.field_names_spec(),
    {
        let ghost items = self.names();
        let mut s = String::new();
        let n = self.fields.len();
        for i in 0..n
            invariant
                n == self.fields@.len(),
                items == self.names(),
                s@ == comma_list(items.take(i as int)),
        {
            proof {
                lemma_joined_step(items, ", "@, i as int);
            }
            if i > 0 {
                s.append(", ");
            }
            s.append(self.fields[i].name.as_str());
        }
        assert(items.take(n as int) =~= items);
        s
    }

    /// The insert placeholders of the model: `$1, $2, ...`, one per field.
    pub fn row_placeholders(&self) -> (r: String)
        ensures
            r@ == self.row_placeholders_spec(),
    {
        let n = self.fields.len();
        let ghost items = placeholders(n as nat);
        let mut s = String::new();
        for i in 0..n
            invariant
                n == self.fields@.len(),
                items == placeholders(n as nat),
                s@ == comma_list(items.take(i as int)),
        {
            proof {
                lemma_joined_step(items, ", "@, i as int);
            }
            if i > 0 {
                s.append(", ");
            }
            let ghost before = s@;
            s.append("$");
            push_decimal(&mut s, (i + 1) as u64);
            assert(s@ =~= before + items[i as int]);
        }
        assert(items.take(n as int) =~= items);
        s
    }

    /// The update assignments of the model: `name1 = $1, name2 = $2, ...`.
    pub fn update_placeholders(&self) -> (r: String)
        ensures
            r@ == self.update_placeholders_spec(),
    {
        let n = self.fields.len();
        let ghost items = assignments(self.names());
        let mut s = String::new();
        for i in 0..n
            invariant
                n == self.fields@.len(),
                items == assignments(self.names()),
                s@ == comma_list(items.take(i as int)),
        {
            proof {
                lemma_joined_step(items, ", "@, i as int);
            }
            if i > 0 {
                s.append(", ");
            }
            let ghost before = s@;
            s.append(self.fields[i].name.as_str());
            s.append(" = $");
            push_decimal(&mut s, (i + 1) as u64);
            proof {
                reveal_strlit(" = $");
                reveal_strlit(" = ");
                reveal_strlit("$");
            }
            assert(s@ =~= before + items[i as int]);
        }
        assert(items.take(n as int) =~= items);
        s
    }

    /// The statement that selects the record with a given id.
    pub fn build_get_one_sql(&self) -> (r: String)
        ensures
            r@ == self.get_one_sql_spec(),
    {
        let mut s = String::from_str("SELECT ");
        s.append(self.field_names().as_str());
        s.append(" FROM ");
        s.append(self.model_name().as_str());
        s.append(" WHERE id = $1");
        s
    }

    /// The statement that selects all records, paginated by `LIMIT` when a
    /// limit is given and by `OFFSET` when both are given.
    pub fn build_get_list_sql(&self, limit: Option<u64>, offset: Option<u64>) -> (r: String)
        ensures
            r@ == self.get_list_sql_spec(limit, offset),
    {
        let mut s = String::from_str("SELECT ");
        s.append(self.field_names().as_str());
        s.append(" FROM ");
        s.append(self.model_name().as_str());
        match limit {
            Some(l) => {
                s.append(" LIMIT ");
                push_decimal(&mut s, l);
                match offset {
                    Some(o) => {
                        s.append(" OFFSET ");
                        push_decimal(&mut s, o);
                    },
                    None => {},
                }
            },
            None => {},
        }
        s
    }

    /// The statement that inserts a record.
    pub fn build_insert_sql(&self) -> (r: String)
        ensures
            r@ == self.insert_sql_spec(),
    {
        let mut s = String::from_str("INSERT INTO ");
        s.append(self.model_name().as_str());
        s.append("(");
        s.append(self.field_names().as_str());
        s.append(") VALUES (");
        s.append(self.row_placeholders().as_str());
        s.append(")");
        s
    }

    /// The statement that updates the record with a given id.
    pub fn build_update_sql(&self) -> (r: String)
        ensures
            r@ == self.update_sql_spec(),
    {
        let mut s = String::from_str("UPDATE ");
        s.append(self.model_name().as_str());
        s.append(" SET ");
        s.append(self.update_placeholders().as_str());
        s.append(" WHERE id = $1");
        s
    }

    /// The statement that deletes the record with a given id.
    pub fn build_delete_sql(&self) -> (r: String)
        ensures
            r@ == self.delete_sql_spec(),
    {
        let mut s = String::from_str("DELETE FROM ");
        s.append(self.model_name().as_str());
        s.append(" WHERE id = $1");
        s
    }
}

/// The number of commas in a text.
pub open spec fn comma_count(s: Seq<char>) -> nat
    decreases s.len(),
{
    if s.len() == 0 {
        0
    } else {
        comma_count(s.drop_last()) + if s.last() == ',' {
            1nat
        } else {
            0nat
        }
    }
}

/// A text holds no comma.
pub open spec fn comma_free(s: Seq<char>) -> bool {
    forall|k: int| 0 <= k < s.len() ==> s[k] != ','
}

proof fn lemma_comma_count_concat(a: Seq<char>, b: Seq<char>)
    ensures
        comma_count(a + b) == comma_count(a) + comma_count(b),
    decreases b.len(),
{
    if b.len() > 0 {
        assert((a + b).drop_last() =~= a + b.drop_last());
        lemma_comma_count_concat(a, b.drop_last());
    } else {
        assert(a + b =~= a);
    }
}

proof fn lemma_comma_free_count(s: Seq<char>)
    requires
        comma_free(s),
    ensures
        comma_count(s) == 0,
    decreases s.len(),
{
    if s.len() > 0 {
        lemma_comma_free_count(s.drop_last());
    }
}

proof fn lemma_decimal_comma_free(n: nat)
    ensures
        comma_free(decimal(n)),
    decreases n,
{
    let digits = seq!['0', '1', '2', '3', '4', '5', '6', '7', '8', '9'];
    assert(forall|d: int| 0 <= d < 10 ==> #[trigger] digits[d] != ',');
    if n >= 10 {
        lemma_decimal_comma_free(n / 10);
        assert(digit_char(n % 10) == digits[(n % 10) as int]);
    } else {
        assert(digit_char(n) == digits[n as int]);
    }
}

proof fn lemma_joined_comma_count(items: Seq<Seq<char>>)
    requires
        items.len() > 0,
        forall|i: int| 0 <= i < items.len() ==> comma_free(#[trigger] items[i]),
    ensures
        comma_count(comma_list(items)) == items.len() - 1,
    decreases items.len(),
{
    if items.len() == 1 {
        lemma_comma_free_count(items[0]);
    } else {
        let init = items.drop_last();
        assert forall|i: int| 0 <= i < init.len() implies comma_free(#[trigger] init[i]) by {
            assert(init[i] == items[i]);
        }
        lemma_joined_comma_count(init);
        reveal_strlit(", ");
        assert(comma_count(", "@) == 1) by {
            let one = seq![','];
            assert(one.drop_last() =~= Seq::<char>::empty());
            assert(one.last() == ',');
            assert(one.len() == 1);
            assert(comma_count(Seq::<char>::empty()) == 0);
            assert(comma_count(one) == comma_count(one.drop_last()) + 1);
            assert(", "@.drop_last() =~= one);
            assert(", "@.last() == ' ');
        }
        lemma_comma_count_concat(joined(init, ", "@), ", "@);
        lemma_comma_count_concat(joined(init, ", "@) + ", "@, items.last());
        lemma_comma_free_count(items.last());
    }
}

/// The insert placeholders of an N-field record are N comma-free entries,
/// `$1` to `$N` in order, joined by `, `, so that the text has N - 1 commas;
/// the column list is the N field names in declaration order joined the same
/// way, with N - 1 commas when no name holds a comma.
pub proof fn lemma_entries(schema: &ModelSchema)
    ensures
        schema.row_placeholders_spec() == comma_list(placeholders(schema.fields@.len() as nat)),
        placeholders(schema.fields@.len() as nat).len() == schema.fields@.len(),
        forall|i: int|
            0 <= i < schema.fields@.len() ==> {
                &&& #[trigger] placeholders(schema.fields@.len() as nat)[i] == placeholder(
                    (i + 1) as nat,
                )
                &&& comma_free(placeholders(schema.fields@.len() as nat)[i])
            },
        schema.fields@.len() > 0 ==> comma_count(schema.row_placeholders_spec())
            == schema.fields@.len() - 1,
        schema.field_names_spec() == comma_list(schema.names()),
        schema.names().len() == schema.fields@.len(),
        forall|i: int|
            0 <= i < schema.fields@.len() ==> #[trigger] schema.names()[i]
                == schema.fields@[i].name@,
        schema.fields@.len() > 0 && (forall|i: int|
            0 <= i < schema.fields@.len() ==> comma_free(#[trigger] schema.fields@[i].name@))
            ==> comma_count(schema.field_names_spec()) == schema.fields@.len() - 1,
{
    let n = schema.fields@.len();
    let ph = placeholders(n as nat);
    reveal_strlit("$");
    assert forall|i: int| 0 <= i < n implies comma_free(#[trigger] ph[i]) by {
        lemma_decimal_comma_free((i + 1) as nat);
        assert(ph[i] =~= seq!['$'] + decimal((i + 1) as nat));
    }
    if n > 0 {
        lemma_joined_comma_count(ph);
        if forall|i: int| 0 <= i < n ==> comma_free(#[trigger] schema.fields@[i].name@) {
            let names = schema.names();
            assert forall|i: int| 0 <= i < names.len() implies comma_free(#[trigger] names[i]) by {
                assert(names[i] == schema.fields@[i].name@);
            }
            lemma_joined_comma_count(names);
        }
    }
}

} // verus!
