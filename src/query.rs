use vstd::prelude::*;
use crate::text::{self, append_decimal};
use crate::values::{self, DatabaseValue, ValueKind};
use crate::fields::{self, FieldView};
use crate::naming;

verus! {

/// Why an operation failed.
#[derive(Debug, Clone, Copy, PartialEq, Eq, Structural)]
pub enum QueryError {
    /// A find-one, or the re-read after an update, matched no row.
    NotFound,
    /// A unique or foreign-key constraint refused the write.
    ConstraintViolation,
    /// No connection could be had, or it failed.
    ConnectionError,
    /// The statement failed in the database for another reason.
    ExecutionError,
    /// A returned row does not have the shape of the record type.
    MappingError,
    /// An automatic timestamp falls outside the range that can be written.
    TimestampOutOfRange,
}

/// Which rows a find considers with regard to `archived_at`.
#[derive(Debug, Clone, Copy, PartialEq, Eq, Structural)]
pub enum ArchiveFilter {
    Any,
    Unarchived,
    Archived,
}

/// A statement ready to run: its SQL text and the values bound to `$1`,
/// `$2`, ... in order.
pub struct Query {
    pub sql: String,
    pub binds: Vec<DatabaseValue>,
}

pub open spec fn values_view(v: Seq<DatabaseValue>) -> Seq<(ValueKind, Seq<char>)> {
    v.map_values(|x: DatabaseValue| x@)
}

/// The values of a field list, in order.
pub open spec fn values_of(fs: Seq<FieldView>) -> Seq<(ValueKind, Seq<char>)> {
    fs.map_values(|f: FieldView| f.1)
}

/// The names of a field list, in order.
pub open spec fn names_of(fs: Seq<FieldView>) -> Seq<Seq<char>> {
    fs.map_values(|f: FieldView| f.0)
}

/// The values of a field list that are bound as parameters: all but NULLs,
/// which are written into the statement as literals.
pub open spec fn bound_values(fs: Seq<FieldView>) -> Seq<(ValueKind, Seq<char>)>
    decreases fs.len(),
{
    if fs.len() == 0 {
        seq![]
    } else if fs.last().1.0 == ValueKind::Null {
        bound_values(fs.drop_last())
    } else {
        bound_values(fs.drop_last()).push(fs.last().1)
    }
}

/// The parameter number that the value at index `i` is bound to.
pub open spec fn slot_number(fs: Seq<FieldView>, i: int) -> nat {
    bound_values(fs.take(i)).len() + 1
}

/// `CAST($k AS <type>)`.
pub open spec fn cast_placeholder(kind: ValueKind, k: nat) -> Seq<char> {
    "CAST($"@ + text::decimal(k) + " AS "@ + values::cast_type(kind) + ")"@
}

/// `<field> = $<i + 1>` for each equality condition.
pub open spec fn condition_items(fs: Seq<FieldView>) -> Seq<Seq<char>> {
    Seq::new(fs.len(), |i: int| fs[i].0 + " = $"@ + text::decimal((i + 1) as nat))
}

/// The equality conditions ANDed, each bound to the parameter of its position.
pub open spec fn conditions_sql(fs: Seq<FieldView>) -> Seq<char> {
    text::joined(condition_items(fs), " AND "@)
}

/// The placeholders of an INSERT: `NULL` for a NULL, else a cast parameter.
pub open spec fn insert_value_items(fs: Seq<FieldView>) -> Seq<Seq<char>> {
    Seq::new(
        fs.len(),
        |i: int|
            if fs[i].1.0 == ValueKind::Null {
                "NULL"@
            } else {
                cast_placeholder(fs[i].1.0, slot_number(fs, i))
            },
    )
}

pub open spec fn insert_sql(table: Seq<char>, fs: Seq<FieldView>) -> Seq<char> {
    "INSERT INTO "@ + table + " ("@ + text::joined(names_of(fs), ", "@) + ") VALUES ("@
        + text::joined(insert_value_items(fs), ", "@) + ") RETURNING *"@
}

/// `<field> = NULL` for a NULL, else `<field> = CAST($k AS <type>)`.
pub open spec fn set_items(fs: Seq<FieldView>) -> Seq<Seq<char>> {
    Seq::new(
        fs.len(),
        |i: int|
            if fs[i].1.0 == ValueKind::Null {
                fs[i].0 + " = NULL"@
            } else {
                fs[i].0 + " = "@ + cast_placeholder(fs[i].1.0, slot_number(fs, i))
            },
    )
}

/// The record's id is bound after the SET values.
pub open spec fn update_sql(table: Seq<char>, fs: Seq<FieldView>) -> Seq<char> {
    "UPDATE "@ + table + " SET "@ + text::joined(set_items(fs), ", "@) + " WHERE id = $"@
        + text::decimal(bound_values(fs).len() + 1) + " RETURNING *"@
}

pub open spec fn filter_sql(filter: ArchiveFilter) -> Seq<char> {
    match filter {
        ArchiveFilter::Any => seq![],
        ArchiveFilter::Unarchived => "archived_at IS NULL"@,
        ArchiveFilter::Archived => "archived_at IS NOT NULL"@,
    }
}

/// ` WHERE ` followed by the predicate `pred` and the equality conditions,
/// ANDed; nothing at all when there is neither (every row matches).
pub open spec fn where_sql(pred: Seq<char>, fs: Seq<FieldView>) -> Seq<char> {
    if pred.len() == 0 && fs.len() == 0 {
        seq![]
    } else if pred.len() == 0 {
        " WHERE "@ + conditions_sql(fs)
    } else if fs.len() == 0 {
        " WHERE "@ + pred
    } else {
        " WHERE "@ + pred + " AND "@ + conditions_sql(fs)
    }
}

pub open spec fn select_sql(
    table: Seq<char>,
    filter: ArchiveFilter,
    fs: Seq<FieldView>,
    limit_one: bool,
) -> Seq<char> {
    "SELECT * FROM "@ + table + where_sql(filter_sql(filter), fs) + if limit_one {
        " LIMIT 1"@
    } else {
        seq![]
    }
}

pub open spec fn delete_sql(table: Seq<char>, fs: Seq<FieldView>) -> Seq<char> {
    "DELETE FROM "@ + table + where_sql(seq![], fs)
}

/// The archive time is bound after the condition values.
pub open spec fn archive_sql(table: Seq<char>, fs: Seq<FieldView>) -> Seq<char> {
    "UPDATE "@ + table + " SET archived_at = "@ + cast_placeholder(
        ValueKind::DateTime,
        (fs.len() + 1) as nat,
    ) + where_sql(seq![], fs)
}

/// Rows of `primary` joined with `secondary` on the key columns named after
/// each type.
pub open spec fn join_sql(primary: Seq<char>, secondary: Seq<char>, fs: Seq<FieldView>) -> Seq<
    char,
> {
    "SELECT * FROM "@ + naming::table_name_of(primary) + " JOIN "@ + naming::table_name_of(
        secondary,
    ) + " ON "@ + naming::join_key_of(secondary) + " = "@ + naming::join_key_of(primary)
        + where_sql(seq![], fs)
}

proof fn lemma_take_push<T>(s: Seq<T>, i: int)
    requires
        0 <= i < s.len(),
    ensures
        s.take(i + 1) == s.take(i).push(s[i]),
        s.take(i + 1).drop_last() == s.take(i),
        s.take(i + 1).last() == s[i],
{
    assert(s.take(i + 1) =~= s.take(i).push(s[i]));
    assert(s.take(i + 1).drop_last() =~= s.take(i));
}

/// Appends the equality conditions of `p` (see `conditions_sql`).
pub(crate) fn append_conditions(sql: &mut String, p: &Vec<(String, DatabaseValue)>)
    ensures
        final(sql)@ == old(sql)@ + conditions_sql(fields::fields_view(p@)),
{
    let ghost fs = fields::fields_view(p@);
    let ghost start = sql@;
    let mut i: usize = 0;
    while i < p.len()
        invariant
            i <= p.len(),
            fs == fields::fields_view(p@),
            sql@ == start + text::joined(condition_items(fs).take(i as int), " AND "@),
        decreases p.len() - i,
    {
        let ghost before = sql@;
        if i > 0 {
            sql.append(" AND ");
        }
        sql.append(p[i].0.as_str());
        sql.append(" = $");
        append_decimal(sql, (i + 1) as u64);
        proof {
            reveal_strlit(" AND ");
            reveal_strlit(" = $");
            let items = condition_items(fs);
            lemma_take_push(items, i as int);
            text::lemma_joined_push(items.take(i as int), " AND "@, items[i as int]);
            assert(items[i as int] == p@[i as int].0@ + " = $"@ + text::decimal((i + 1) as nat));
            if i > 0 {
                assert(sql@ =~= start + (text::joined(items.take(i as int), " AND "@) + " AND "@
                    + items[i as int]));
            } else {
                assert(items.take(0) =~= Seq::<Seq<char>>::empty());
                assert(sql@ =~= start + items[i as int]);
            }
        }
        i = i + 1;
    }
    proof {
        assert(condition_items(fs).take(p.len() as int) =~= condition_items(fs));
    }
}

/// Appends `where_sql(pred, p)`.
pub(crate) fn append_where(sql: &mut String, pred: &str, p: &Vec<(String, DatabaseValue)>)
    ensures
        final(sql)@ == old(sql)@ + where_sql(pred@, fields::fields_view(p@)),
{
    let ghost start = sql@;
    let has_pred = pred.unicode_len() > 0;
    let has_conds = p.len() > 0;
    proof {
        reveal_strlit(" WHERE ");
        reveal_strlit(" AND ");
    }
    if has_pred || has_conds {
        sql.append(" WHERE ");
        sql.append(pred);
        if has_pred && has_conds {
            sql.append(" AND ");
        }
        let ghost mid = sql@;
        append_conditions(sql, p);
        proof {
            if !has_conds {
                assert(condition_items(fields::fields_view(p@)) =~= Seq::<Seq<char>>::empty());
                assert(sql@ =~= mid);
            }
            if !has_pred {
                assert(pred@ =~= Seq::<char>::empty());
            }
            assert(sql@ =~= start + where_sql(pred@, fields::fields_view(p@)));
        }
    } else {
        assert(where_sql(pred@, fields::fields_view(p@)) =~= Seq::<char>::empty());
    }
}

/// All the values of `p`, in order: equality conditions bind every value.
pub(crate) fn condition_values(p: &Vec<(String, DatabaseValue)>) -> (r: Vec<DatabaseValue>)
    ensures
        values_view(r@) == values_of(fields::fields_view(p@)),
{
    let mut r: Vec<DatabaseValue> = Vec::new();
    let mut i: usize = 0;
    while i < p.len()
        invariant
            i <= p.len(),
            r@.len() == i,
            values_view(r@) == values_of(fields::fields_view(p@)).take(i as int),
        decreases p.len() - i,
    {
        let ghost old_r = r@;
        r.push(p[i].1.duplicate());
        proof {
            assert forall|j: int| 0 <= j < i implies values_view(r@)[j] == values_view(old_r)[j] by {
                assert(r@[j] == old_r[j]);
            }
            assert(values_view(r@) =~= values_of(fields::fields_view(p@)).take(i + 1));
        }
        i = i + 1;
    }
    assert(values_of(fields::fields_view(p@)).take(p.len() as int) =~= values_of(
        fields::fields_view(p@),
    ));
    r
}

/// Appends `CAST($k AS <type>)` for a bound value.
pub(crate) fn append_cast(sql: &mut String, v: &DatabaseValue, k: usize)
    ensures
        final(sql)@ == old(sql)@ + cast_placeholder(v@.0, k as nat),
{
    let ghost start = sql@;
    sql.append("CAST($");
    append_decimal(sql, k as u64);
    sql.append(" AS ");
    sql.append(v.sql_type());
    sql.append(")");
    proof {
        reveal_strlit("CAST($");
        reveal_strlit(" AS ");
        reveal_strlit(")");
        assert(sql@ =~= start + cast_placeholder(v@.0, k as nat));
    }
}

/// Appends the field names of `p` separated by `, `.
pub(crate) fn append_names(sql: &mut String, p: &Vec<(String, DatabaseValue)>)
    ensures
        final(sql)@ == old(sql)@ + text::joined(names_of(fields::fields_view(p@)), ", "@),
{
    let ghost fs = fields::fields_view(p@);
    let ghost start = sql@;
    let mut i: usize = 0;
    while i < p.len()
        invariant
            i <= p.len(),
            fs == fields::fields_view(p@),
            sql@ == start + text::joined(names_of(fs).take(i as int), ", "@),
        decreases p.len() - i,
    {
        if i > 0 {
            sql.append(", ");
        }
        sql.append(p[i].0.as_str());
        proof {
            reveal_strlit(", ");
            let items = names_of(fs);
            lemma_take_push(items, i as int);
            text::lemma_joined_push(items.take(i as int), ", "@, items[i as int]);
            if i > 0 {
                assert(sql@ =~= start + (text::joined(items.take(i as int), ", "@) + ", "@
                    + items[i as int]));
            } else {
                assert(items.take(0) =~= Seq::<Seq<char>>::empty());
                assert(sql@ =~= start + items[i as int]);
            }
        }
        i = i + 1;
    }
    proof {
        assert(names_of(fs).take(p.len() as int) =~= names_of(fs));
    }
}

/// Appends the SET list of an UPDATE and collects the values it binds.
pub(crate) fn append_set_items(sql: &mut String, p: &Vec<(String, DatabaseValue)>) -> (binds: Vec<
    DatabaseValue,
>)
    ensures
        final(sql)@ == old(sql)@ + text::joined(set_items(fields::fields_view(p@)), ", "@),
        values_view(binds@) == bound_values(fields::fields_view(p@)),
{
    let ghost fs = fields::fields_view(p@);
    let ghost start = sql@;
    let mut binds: Vec<DatabaseValue> = Vec::new();
    let mut i: usize = 0;
    while i < p.len()
        invariant
            i <= p.len(),
            fs == fields::fields_view(p@),
            sql@ == start + text::joined(set_items(fs).take(i as int), ", "@),
            values_view(binds@) == bound_values(fs.take(i as int)),
            binds@.len() <= i,
        decreases p.len() - i,
    {
        let ghost old_binds = binds@;
        if i > 0 {
            sql.append(", ");
        }
        proof {
            lemma_take_push(fs, i as int);
        }
        let ghost mid = sql@;
        sql.append(p[i].0.as_str());
        if p[i].1.is_none() {
            sql.append(" = NULL");
        } else {
            sql.append(" = ");
            append_cast(sql, &p[i].1, binds.len() + 1);
            binds.push(p[i].1.duplicate());
        }
        proof {
            reveal_strlit(", ");
            reveal_strlit(" = NULL");
            reveal_strlit(" = ");
            let items = set_items(fs);
            lemma_take_push(items, i as int);
            text::lemma_joined_push(items.take(i as int), ", "@, items[i as int]);
            assert(sql@ =~= mid + items[i as int]);
            if i > 0 {
                assert(sql@ =~= start + (text::joined(items.take(i as int), ", "@) + ", "@
                    + items[i as int]));
            } else {
                assert(items.take(0) =~= Seq::<Seq<char>>::empty());
                assert(sql@ =~= start + items[i as int]);
            }
            assert forall|j: int| 0 <= j < old_binds.len() implies values_view(binds@)[j]
                == values_view(old_binds)[j] by {
                assert(binds@[j] == old_binds[j]);
            }
            assert(values_view(binds@) =~= bound_values(fs.take(i + 1)));
        }
        i = i + 1;
    }
    proof {
        assert(set_items(fs).take(p.len() as int) =~= set_items(fs));
        assert(fs.take(p.len() as int) =~= fs);
    }
    binds
}

/// Appends the INSERT placeholders of `p` and collects the values they bind.
pub(crate) fn append_insert_values(sql: &mut String, p: &Vec<(String, DatabaseValue)>) -> (binds: Vec<
    DatabaseValue,
>)
    ensures
        final(sql)@ == old(sql)@ + text::joined(
            insert_value_items(fields::fields_view(p@)),
            ", "@,
        ),
        values_view(binds@) == bound_values(fields::fields_view(p@)),
{
    let ghost fs = fields::fields_view(p@);
    let ghost start = sql@;
    let mut binds: Vec<DatabaseValue> = Vec::new();
    let mut i: usize = 0;
    while i < p.len()
        invariant
            i <= p.len(),
            fs == fields::fields_view(p@),
            sql@ == start + text::joined(insert_value_items(fs).take(i as int), ", "@),
            values_view(binds@) == bound_values(fs.take(i as int)),
            binds@.len() <= i,
        decreases p.len() - i,
    {
        let ghost before = sql@;
        let ghost old_binds = binds@;
        if i > 0 {
            sql.append(", ");
        }
        proof {
            lemma_take_push(fs, i as int);
        }
        let ghost mid = sql@;
        if p[i].1.is_none() {
            sql.append("NULL");
        } else {
            append_cast(sql, &p[i].1, binds.len() + 1);
            binds.push(p[i].1.duplicate());
        }
        proof {
            reveal_strlit(", ");
            reveal_strlit("NULL");
            let items = insert_value_items(fs);
            lemma_take_push(items, i as int);
            text::lemma_joined_push(items.take(i as int), ", "@, items[i as int]);
            assert(sql@ =~= mid + items[i as int]);
            if i > 0 {
                assert(sql@ =~= start + (text::joined(items.take(i as int), ", "@) + ", "@
                    + items[i as int]));
            } else {
                assert(items.take(0) =~= Seq::<Seq<char>>::empty());
                assert(sql@ =~= start + items[i as int]);
            }
            assert forall|j: int| 0 <= j < old_binds.len() implies values_view(binds@)[j]
                == values_view(old_binds)[j] by {
                assert(binds@[j] == old_binds[j]);
            }
            assert(values_view(binds@) =~= bound_values(fs.take(i + 1)));
        }
        i = i + 1;
    }
    proof {
        assert(insert_value_items(fs).take(p.len() as int) =~= insert_value_items(fs));
        assert(fs.take(p.len() as int) =~= fs);
    }
    binds
}

} // verus!
