use vstd::prelude::*;
use crate::clock::{self, format_instant};
use crate::text::{self, append_signed_decimal};

verus! {

/// A value bound into a query. Every variant carries its payload as text; the
/// variant only selects the SQL cast applied to the placeholder.
#[derive(Debug, Clone, PartialEq, Eq)]
pub enum DatabaseValue {
    /// SQL NULL: written into the statement as a literal, never bound.
    Null,
    Str(&'static str),
    String(String),
    Text(String),
    Int(String),
    Int64(String),
    Float(String),
    Boolean(String),
    DateTime(String),
}

/// Which variant a value is, without its payload.
#[derive(Debug, Clone, Copy, PartialEq, Eq, Structural)]
pub enum ValueKind {
    Null,
    Str,
    String,
    Text,
    Int,
    Int64,
    Float,
    Boolean,
    DateTime,
}

impl View for DatabaseValue {
    /// A value is its kind and the text it carries (empty for NULL).
    type V = (ValueKind, Seq<char>);

    open spec fn view(&self) -> (ValueKind, Seq<char>) {
        match self {
            DatabaseValue::Null => (ValueKind::Null, seq![]),
            DatabaseValue::Str(s) => (ValueKind::Str, s@),
            DatabaseValue::String(s) => (ValueKind::String, s@),
            DatabaseValue::Text(s) => (ValueKind::Text, s@),
            DatabaseValue::Int(s) => (ValueKind::Int, s@),
            DatabaseValue::Int64(s) => (ValueKind::Int64, s@),
            DatabaseValue::Float(s) => (ValueKind::Float, s@),
            DatabaseValue::Boolean(s) => (ValueKind::Boolean, s@),
            DatabaseValue::DateTime(s) => (ValueKind::DateTime, s@),
        }
    }
}

/// The SQL type a bound placeholder of a value of this kind is cast to.
pub open spec fn cast_type(kind: ValueKind) -> Seq<char> {
    match kind {
        ValueKind::Null => seq![],
        ValueKind::Str => "VARCHAR"@,
        ValueKind::String => "VARCHAR"@,
        ValueKind::Text => "TEXT"@,
        ValueKind::Int => "INTEGER"@,
        ValueKind::Int64 => "BIGINT"@,
        ValueKind::Float => "FLOAT"@,
        ValueKind::Boolean => "BOOLEAN"@,
        ValueKind::DateTime => "TIMESTAMP"@,
    }
}

impl DatabaseValue {
    /// The text carried by the value, or `None` for SQL NULL.
    pub open spec fn payload(self) -> Option<Seq<char>> {
        match self {
            DatabaseValue::Null => Option::None,
            DatabaseValue::Str(s) => Option::Some(s@),
            DatabaseValue::String(s) => Option::Some(s@),
            DatabaseValue::Text(s) => Option::Some(s@),
            DatabaseValue::Int(s) => Option::Some(s@),
            DatabaseValue::Int64(s) => Option::Some(s@),
            DatabaseValue::Float(s) => Option::Some(s@),
            DatabaseValue::Boolean(s) => Option::Some(s@),
            DatabaseValue::DateTime(s) => Option::Some(s@),
        }
    }

    pub open spec fn is_null(self) -> bool {
        self@.0 == ValueKind::Null
    }

    /// The SQL type a bound placeholder of this value is cast to.
    pub open spec fn cast_type(self) -> Seq<char> {
        cast_type(self@.0)
    }

    /// A copy of the value.
    pub fn duplicate(&self) -> (r: DatabaseValue)
        ensures
            r@ == self@,
    {
        match self {
            DatabaseValue::Null => DatabaseValue::Null,
            DatabaseValue::Str(s) => DatabaseValue::Str(s),
            DatabaseValue::String(s) => DatabaseValue::String(s.clone()),
            DatabaseValue::Text(s) => DatabaseValue::Text(s.clone()),
            DatabaseValue::Int(s) => DatabaseValue::Int(s.clone()),
            DatabaseValue::Int64(s) => DatabaseValue::Int64(s.clone()),
            DatabaseValue::Float(s) => DatabaseValue::Float(s.clone()),
            DatabaseValue::Boolean(s) => DatabaseValue::Boolean(s.clone()),
            DatabaseValue::DateTime(s) => DatabaseValue::DateTime(s.clone()),
        }
    }

    pub fn is_none(&self) -> (r: bool)
        ensures
            r == self.is_null(),
    {
        match self {
            DatabaseValue::Null => true,
            _ => false,
        }
    }

    /// The SQL type name used to cast this value's placeholder; empty for NULL.
    pub fn sql_type(&self) -> (r: &'static str)
        ensures
            r@ == self.cast_type(),
    {
        proof {
            reveal_strlit("VARCHAR");
            reveal_strlit("TEXT");
            reveal_strlit("INTEGER");
            reveal_strlit("BIGINT");
            reveal_strlit("FLOAT");
            reveal_strlit("BOOLEAN");
            reveal_strlit("TIMESTAMP");
            reveal_strlit("");
        }
        match self {
            DatabaseValue::Null => "",
            DatabaseValue::Str(_) => "VARCHAR",
            DatabaseValue::String(_) => "VARCHAR",
            DatabaseValue::Text(_) => "TEXT",
            DatabaseValue::Int(_) => "INTEGER",
            DatabaseValue::Int64(_) => "BIGINT",
            DatabaseValue::Float(_) => "FLOAT",
            DatabaseValue::Boolean(_) => "BOOLEAN",
            DatabaseValue::DateTime(_) => "TIMESTAMP",
        }
    }

    /// The text carried by the value, or `None` for SQL NULL.
    pub fn text(&self) -> (r: Option<String>)
        ensures
            r.is_some() == self.payload().is_some(),
            r.is_some() ==> r.unwrap()@ == self.payload().unwrap(),
    {
        match self {
            DatabaseValue::Null => Option::None,
            DatabaseValue::Str(s) => Option::Some(String::from_str(s)),
            DatabaseValue::String(s) => Option::Some(s.clone()),
            DatabaseValue::Text(s) => Option::Some(s.clone()),
            DatabaseValue::Int(s) => Option::Some(s.clone()),
            DatabaseValue::Int64(s) => Option::Some(s.clone()),
            DatabaseValue::Float(s) => Option::Some(s.clone()),
            DatabaseValue::Boolean(s) => Option::Some(s.clone()),
            DatabaseValue::DateTime(s) => Option::Some(s.clone()),
        }
    }
}

/// The OIDs of the PostgreSQL types a value can be read from: text,
/// varchar, bpchar and name.
pub open spec fn is_text_oid(oid: u32) -> bool {
    oid == 25 || oid == 1043 || oid == 1042 || oid == 19
}

impl DatabaseValue {
    /// Whether a column of the PostgreSQL type with this OID is compatible:
    /// values travel as text.
    pub fn accepts_oid(oid: u32) -> (r: bool)
        ensures
            r == is_text_oid(oid),
    {
        let text_oids: [u32; 4] = [25, 1043, 1042, 19];
        let mut i: usize = 0;
        while i < 4
            invariant
                i <= 4,
                text_oids@ == seq![25u32, 1043u32, 1042u32, 19u32],
                forall|j: int| 0 <= j < i ==> text_oids@[j] != oid,
            decreases 4 - i,
        {
            if text_oids[i] == oid {
                return true;
            }
            i = i + 1;
        }
        false
    }

    /// A text value made of the strings one after another.
    pub fn from_strs(items: &Vec<String>) -> (r: DatabaseValue)
        ensures
            r@ == (ValueKind::String, text::concat(items@.map_values(|s: String| s@))),
    {
        let mut out = String::new();
        let mut i: usize = 0;
        while i < items.len()
            invariant
                i <= items.len(),
                out@ == text::concat(items@.map_values(|s: String| s@).take(i as int)),
            decreases items.len() - i,
        {
            out.append(items[i].as_str());
            proof {
                let all = items@.map_values(|s: String| s@);
                assert(all.take(i + 1).drop_last() =~= all.take(i as int));
            }
            i = i + 1;
        }
        proof {
            let all = items@.map_values(|s: String| s@);
            assert(all.take(items.len() as int) =~= all);
        }
        DatabaseValue::String(out)
    }

    /// A boolean value made of `true` / `false` for each item, one after
    /// another.
    pub fn from_bools(items: &Vec<bool>) -> (r: DatabaseValue)
        ensures
            r@ == (ValueKind::Boolean, text::concat(items@.map_values(|b: bool| bool_text(b)))),
    {
        let mut out = String::new();
        let mut i: usize = 0;
        while i < items.len()
            invariant
                i <= items.len(),
                out@ == text::concat(items@.map_values(|b: bool| bool_text(b)).take(i as int)),
            decreases items.len() - i,
        {
            if items[i] {
                out.append("true");
            } else {
                out.append("false");
            }
            proof {
                reveal_strlit("true");
                reveal_strlit("false");
                let all = items@.map_values(|b: bool| bool_text(b));
                assert(all.take(i + 1).drop_last() =~= all.take(i as int));
            }
            i = i + 1;
        }
        proof {
            let all = items@.map_values(|b: bool| bool_text(b));
            assert(all.take(items.len() as int) =~= all);
        }
        DatabaseValue::Boolean(out)
    }

    /// A 64-bit integer value made of the numbers' decimal notations, one
    /// after another.
    pub fn from_i64s(items: &Vec<i64>) -> (r: DatabaseValue)
        ensures
            r@ == (ValueKind::Int64, text::concat(
                items@.map_values(|i: i64| text::signed_decimal(i as int)),
            )),
    {
        let mut out = String::new();
        let mut i: usize = 0;
        while i < items.len()
            invariant
                i <= items.len(),
                out@ == text::concat(
                    items@.map_values(|i: i64| text::signed_decimal(i as int)).take(i as int),
                ),
            decreases items.len() - i,
        {
            append_signed_decimal(&mut out, items[i]);
            proof {
                let all = items@.map_values(|i: i64| text::signed_decimal(i as int));
                assert(all.take(i + 1).drop_last() =~= all.take(i as int));
            }
            i = i + 1;
        }
        proof {
            let all = items@.map_values(|i: i64| text::signed_decimal(i as int));
            assert(all.take(items.len() as int) =~= all);
        }
        DatabaseValue::Int64(out)
    }

    /// A timestamp value made of the ISO 8601 texts of the instants
    /// (nanoseconds since the Unix epoch), one after another; `None` when one
    /// of them cannot be written.
    pub fn from_instants(items: &Vec<i128>) -> (r: Option<DatabaseValue>)
        ensures
            r is Some == (forall|j: int|
                0 <= j < items@.len() ==> clock::iso8601_of(#[trigger] items@[j] as int) is Some),
            r is Some ==> r.unwrap()@ == (ValueKind::DateTime, text::concat(
                items@.map_values(|n: i128| clock::iso8601_of(n as int).unwrap()),
            )),
    {
        let mut out = String::new();
        let mut i: usize = 0;
        while i < items.len()
            invariant
                i <= items.len(),
                forall|j: int| 0 <= j < i ==> clock::iso8601_of(#[trigger] items@[j] as int) is Some,
                out@ == text::concat(
                    items@.map_values(|n: i128| clock::iso8601_of(n as int).unwrap()).take(
                        i as int,
                    ),
                ),
            decreases items.len() - i,
        {
            match format_instant(items[i]) {
                Some(s) => out.append(s.as_str()),
                None => return None,
            }
            proof {
                let all = items@.map_values(|n: i128| clock::iso8601_of(n as int).unwrap());
                assert(all.take(i + 1).drop_last() =~= all.take(i as int));
            }
            i = i + 1;
        }
        proof {
            let all = items@.map_values(|n: i128| clock::iso8601_of(n as int).unwrap());
            assert(all.take(items.len() as int) =~= all);
        }
        Some(DatabaseValue::DateTime(out))
    }
}

pub open spec fn bool_text(b: bool) -> Seq<char> {
    if b {
        "true"@
    } else {
        "false"@
    }
}

} // verus!
