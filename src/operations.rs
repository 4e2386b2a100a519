use vstd::prelude::*;
use crate::clock::{self, expiry_instant, format_instant, new_uuid, now_unix_nanos};
use crate::fields::{self, prepare_insert_fields, prepare_update_fields, FieldView};
use crate::naming::{self, join_key, table_name};
use crate::query::{self, Query, QueryError, ArchiveFilter};
use crate::resource::ResourceDescriptor;
use crate::text::append_decimal;
use crate::values::{DatabaseValue, ValueKind};

verus! {

/// The text written for the instant `now`; empty where it cannot be written.
pub open spec fn stamp_of(now: int) -> Seq<char> {
    match clock::iso8601_of(now) {
        Option::Some(s) => s,
        Option::None => seq![],
    }
}

/// The text written for thirty days after `now`; empty where it cannot be
/// written.
pub open spec fn expiry_stamp_of(now: int) -> Seq<char> {
    if clock::expiry_of(now) <= i128::MAX {
        stamp_of(clock::expiry_of(now))
    } else {
        seq![]
    }
}

/// Whether the instant `now`, and thirty days after it, can be written.
pub open spec fn stamps_ok(need_now: bool, need_expiry: bool, now: int) -> bool {
    &&& need_now ==> clock::iso8601_of(now).is_some()
    &&& need_expiry ==> (clock::expiry_of(now) <= i128::MAX && clock::iso8601_of(
        clock::expiry_of(now),
    ).is_some())
}

pub open spec fn insert_stamps_ok(desc: ResourceDescriptor, now: int) -> bool {
    stamps_ok(desc.is_creatable || desc.is_updatable, desc.is_expirable, now)
}

pub open spec fn update_stamps_ok(desc: ResourceDescriptor, now: int) -> bool {
    stamps_ok(desc.is_updatable, desc.is_expirable, now)
}

/// `q` is the INSERT of `fs` into the table of `desc`, with `id` as the
/// generated id and `now` as the instant of the insert.
pub open spec fn is_insert_query(
    q: Query,
    desc: ResourceDescriptor,
    fs: Seq<FieldView>,
    id: Seq<char>,
    now: int,
) -> bool {
    let written = fields::insert_fields(desc, fs, id, stamp_of(now), expiry_stamp_of(now));
    &&& q.sql@ == query::insert_sql(naming::table_name_of(desc.name@), written)
    &&& query::values_view(q.binds@) == query::bound_values(written)
}

/// `q` is the UPDATE of record `id` with `fs`, at the instant `now`.
pub open spec fn is_update_query(
    q: Query,
    desc: ResourceDescriptor,
    id: Seq<char>,
    fs: Seq<FieldView>,
    now: int,
) -> bool {
    let written = fields::update_fields(desc, fs, stamp_of(now), expiry_stamp_of(now));
    &&& q.sql@ == query::update_sql(naming::table_name_of(desc.name@), written)
    &&& query::values_view(q.binds@) == query::bound_values(written).push(
        (ValueKind::String, id),
    )
}

/// `q` deletes the rows of `desc` matching `fs`, or archives them at `now`
/// where the type is archivable.
pub open spec fn is_delete_query(q: Query, desc: ResourceDescriptor, fs: Seq<FieldView>, now: int) -> bool {
    let table = naming::table_name_of(desc.name@);
    if desc.is_archivable {
        &&& q.sql@ == query::archive_sql(table, fs)
        &&& query::values_view(q.binds@) == query::values_of(fs).push(
            (ValueKind::DateTime, stamp_of(now)),
        )
    } else {
        &&& q.sql@ == query::delete_sql(table, fs)
        &&& query::values_view(q.binds@) == query::values_of(fs)
    }
}

fn stamp_text(now: i128) -> (r: Option<String>)
    ensures
        r.is_some() == clock::iso8601_of(now as int).is_some(),
        r.is_some() ==> r.unwrap()@ == stamp_of(now as int),
{
    format_instant(now)
}

/// The texts for `now` and for thirty days later, where those needed can be
/// written (an unneeded one that cannot be written is left empty).
fn stamps(need_now: bool, need_expiry: bool, now: i128) -> (r: Option<(String, String)>)
    ensures
        r.is_some() == stamps_ok(need_now, need_expiry, now as int),
        r.is_some() ==> r.unwrap().0@ == stamp_of(now as int) && r.unwrap().1@
            == expiry_stamp_of(now as int),
{
    let current = match stamp_text(now) {
        Some(s) => s,
        None => {
            if need_now {
                return None;
            }
            String::new()
        },
    };
    let expires = match expiry_instant(now) {
        Some(later) => match stamp_text(later) {
            Some(s) => s,
            None => {
                if need_expiry {
                    return None;
                }
                String::new()
            },
        },
        None => {
            if need_expiry {
                return None;
            }
            String::new()
        },
    };
    Some((current, expires))
}

/// Builds the INSERT of `params` into the table of `desc`, with `id` as the
/// generated id (where the type has one) and `now`, in nanoseconds since the
/// Unix epoch, as the instant of the automatic timestamps.
pub fn insert_query_at(
    desc: &ResourceDescriptor,
    params: &Vec<(String, DatabaseValue)>,
    id: &str,
    now: i128,
) -> (r: Result<Query, QueryError>)
    requires
        desc.wf(),
    ensures
        r.is_ok() == insert_stamps_ok(*desc, now as int),
        r.is_ok() ==> is_insert_query(r.unwrap(), *desc, fields::fields_view(params@), id@, now as int),
        r.is_err() ==> r == Err::<Query, QueryError>(QueryError::TimestampOutOfRange),
{
    let (current, expires) = match stamps(
        desc.is_creatable || desc.is_updatable,
        desc.is_expirable,
        now,
    ) {
        Some(p) => p,
        None => return Err(QueryError::TimestampOutOfRange),
    };
    let written = prepare_insert_fields(desc, params, id, current.as_str(), expires.as_str());
    let mut sql = String::from_str("INSERT INTO ");
    let table = table_name(desc.name);
    sql.append(table.as_str());
    sql.append(" (");
    query::append_names(&mut sql, &written);
    sql.append(") VALUES (");
    let binds = query::append_insert_values(&mut sql, &written);
    sql.append(") RETURNING *");
    proof {
        reveal_strlit("INSERT INTO ");
        reveal_strlit(" (");
        reveal_strlit(") VALUES (");
        reveal_strlit(") RETURNING *");
    }
    Ok(Query { sql, binds })
}

/// Builds the INSERT of `params` with a freshly generated id and the current
/// time.
pub fn insert_query(desc: &ResourceDescriptor, params: &Vec<(String, DatabaseValue)>) -> (r: Result<
    Query,
    QueryError,
>)
    requires
        desc.wf(),
    ensures
        !(desc.is_creatable || desc.is_updatable || desc.is_expirable) ==> r.is_ok(),
        r.is_ok() ==> exists|id: Seq<char>, now: i128|
            clock::is_uuid_v4_text(id) && insert_stamps_ok(*desc, now as int) && is_insert_query(
                r.unwrap(),
                *desc,
                fields::fields_view(params@),
                id,
                now as int,
            ),
        r.is_err() ==> r == Err::<Query, QueryError>(QueryError::TimestampOutOfRange),
{
    let id = new_uuid();
    let now = now_unix_nanos();
    insert_query_at(desc, params, id.as_str(), now)
}

/// Builds the UPDATE of record `id` with `params` at the instant `now`.
/// The caller reads the record back with `find_one_query` on `id_condition(id)`:
/// that row, not the UPDATE's own result, is the operation's answer.
pub fn update_query_at(
    desc: &ResourceDescriptor,
    id: &str,
    params: &Vec<(String, DatabaseValue)>,
    now: i128,
) -> (r: Result<Query, QueryError>)
    requires
        desc.wf(),
        params@.len() + 3 <= usize::MAX,
    ensures
        r.is_ok() == update_stamps_ok(*desc, now as int),
        r.is_ok() ==> is_update_query(r.unwrap(), *desc, id@, fields::fields_view(params@), now as int),
        r.is_err() ==> r == Err::<Query, QueryError>(QueryError::TimestampOutOfRange),
{
    let (current, expires) = match stamps(desc.is_updatable, desc.is_expirable, now) {
        Some(p) => p,
        None => return Err(QueryError::TimestampOutOfRange),
    };
    let written = prepare_update_fields(desc, params, current.as_str(), expires.as_str());
    let mut sql = String::from_str("UPDATE ");
    let table = table_name(desc.name);
    sql.append(table.as_str());
    sql.append(" SET ");
    let mut binds = query::append_set_items(&mut sql, &written);
    sql.append(" WHERE id = $");
    let ghost before = binds@;
    proof {
        assert(binds@.len() == query::bound_values(fields::fields_view(written@)).len());
        lemma_bound_values_len(fields::fields_view(written@));
        assert(written@.len() <= params@.len() + 2);
    }
    append_decimal(&mut sql, (binds.len() + 1) as u64);
    sql.append(" RETURNING *");
    binds.push(DatabaseValue::String(String::from_str(id)));
    proof {
        reveal_strlit("UPDATE ");
        reveal_strlit(" SET ");
        reveal_strlit(" WHERE id = $");
        reveal_strlit(" RETURNING *");
        assert forall|j: int| 0 <= j < before.len() implies query::values_view(binds@)[j]
            == query::values_view(before)[j] by {
            assert(binds@[j] == before[j]);
        }
        assert(query::values_view(binds@) =~= query::values_view(before).push(
            (ValueKind::String, id@),
        ));
    }
    Ok(Query { sql, binds })
}

/// Builds the UPDATE of record `id` with `params` at the current time.
pub fn update_query(desc: &ResourceDescriptor, id: &str, params: &Vec<(String, DatabaseValue)>) -> (r:
    Result<Query, QueryError>)
    requires
        desc.wf(),
        params@.len() + 3 <= usize::MAX,
    ensures
        !(desc.is_updatable || desc.is_expirable) ==> r.is_ok(),
        r.is_ok() ==> exists|now: i128|
            update_stamps_ok(*desc, now as int) && is_update_query(
                r.unwrap(),
                *desc,
                id@,
                fields::fields_view(params@),
                now as int,
            ),
        r.is_err() ==> r == Err::<Query, QueryError>(QueryError::TimestampOutOfRange),
{
    let now = now_unix_nanos();
    update_query_at(desc, id, params, now)
}

pub proof fn lemma_bound_values_len(fs: Seq<FieldView>)
    ensures
        query::bound_values(fs).len() <= fs.len(),
    decreases fs.len(),
{
    if fs.len() > 0 {
        lemma_bound_values_len(fs.drop_last());
    }
}

/// The single condition `id = <id>`.
pub fn id_condition(id: &str) -> (r: Vec<(String, DatabaseValue)>)
    ensures
        fields::fields_view(r@) == seq![("id"@, (ValueKind::String, id@))],
{
    let mut r: Vec<(String, DatabaseValue)> = Vec::new();
    r.push((String::from_str("id"), DatabaseValue::String(String::from_str(id))));
    proof {
        reveal_strlit("id");
        assert(fields::fields_view(r@) =~= seq![("id"@, (ValueKind::String, id@))]);
    }
    r
}

/// Builds the SELECT of the rows of `desc` that match every condition of
/// `params` and pass `filter`; `limit_one` keeps at most one row.
pub fn find_query(
    desc: &ResourceDescriptor,
    filter: ArchiveFilter,
    params: &Vec<(String, DatabaseValue)>,
    limit_one: bool,
) -> (r: Query)
    requires
        desc.wf(),
    ensures
        r.sql@ == query::select_sql(
            naming::table_name_of(desc.name@),
            filter,
            fields::fields_view(params@),
            limit_one,
        ),
        query::values_view(r.binds@) == query::values_of(fields::fields_view(params@)),
{
    let mut sql = String::from_str("SELECT * FROM ");
    let table = table_name(desc.name);
    sql.append(table.as_str());
    let pred = match filter {
        ArchiveFilter::Any => "",
        ArchiveFilter::Unarchived => "archived_at IS NULL",
        ArchiveFilter::Archived => "archived_at IS NOT NULL",
    };
    proof {
        reveal_strlit("");
        reveal_strlit("archived_at IS NULL");
        reveal_strlit("archived_at IS NOT NULL");
    }
    query::append_where(&mut sql, pred, params);
    if limit_one {
        sql.append(" LIMIT 1");
    }
    proof {
        reveal_strlit("SELECT * FROM ");
        reveal_strlit(" LIMIT 1");
    }
    let binds = query::condition_values(params);
    Query { sql, binds }
}

/// Builds the find-one SELECT (see `find_query`); no row means `NotFound`.
pub fn find_one_query(
    desc: &ResourceDescriptor,
    filter: ArchiveFilter,
    params: &Vec<(String, DatabaseValue)>,
) -> (r: Query)
    requires
        desc.wf(),
    ensures
        r.sql@ == query::select_sql(
            naming::table_name_of(desc.name@),
            filter,
            fields::fields_view(params@),
            true,
        ),
        query::values_view(r.binds@) == query::values_of(fields::fields_view(params@)),
{
    find_query(desc, filter, params, true)
}

/// Builds the find-all SELECT (see `find_query`); no row means an empty list.
pub fn find_all_query(
    desc: &ResourceDescriptor,
    filter: ArchiveFilter,
    params: &Vec<(String, DatabaseValue)>,
) -> (r: Query)
    requires
        desc.wf(),
    ensures
        r.sql@ == query::select_sql(
            naming::table_name_of(desc.name@),
            filter,
            fields::fields_view(params@),
            false,
        ),
        query::values_view(r.binds@) == query::values_of(fields::fields_view(params@)),
{
    find_query(desc, filter, params, false)
}

/// Builds the statement that deletes the rows of `desc` matching `params`:
/// for an archivable type an UPDATE that sets `archived_at` to `now`,
/// otherwise a DELETE.
pub fn delete_query_at(
    desc: &ResourceDescriptor,
    params: &Vec<(String, DatabaseValue)>,
    now: i128,
) -> (r: Result<Query, QueryError>)
    requires
        desc.wf(),
        params@.len() < usize::MAX,
    ensures
        r.is_ok() == (desc.is_archivable ==> clock::iso8601_of(now as int).is_some()),
        r.is_ok() ==> is_delete_query(r.unwrap(), *desc, fields::fields_view(params@), now as int),
        r.is_err() ==> r == Err::<Query, QueryError>(QueryError::TimestampOutOfRange),
{
    let table = table_name(desc.name);
    let mut binds = query::condition_values(params);
    proof {
        reveal_strlit("UPDATE ");
        reveal_strlit(" SET archived_at = ");
        reveal_strlit("DELETE FROM ");
        reveal_strlit("");
    }
    if desc.is_archivable {
        let stamp = match stamp_text(now) {
            Some(s) => s,
            None => return Err(QueryError::TimestampOutOfRange),
        };
        let mut sql = String::from_str("UPDATE ");
        sql.append(table.as_str());
        sql.append(" SET archived_at = ");
        let value = DatabaseValue::DateTime(stamp);
        proof {
            assert(binds@.len() == query::values_of(fields::fields_view(params@)).len());
        }
        query::append_cast(&mut sql, &value, binds.len() + 1);
        query::append_where(&mut sql, "", params);
        let ghost before = binds@;
        binds.push(value);
        proof {
            assert forall|j: int| 0 <= j < before.len() implies query::values_view(binds@)[j]
                == query::values_view(before)[j] by {
                assert(binds@[j] == before[j]);
            }
            assert(query::values_view(binds@) =~= query::values_view(before).push(
                (ValueKind::DateTime, stamp_of(now as int)),
            ));
        }
        Ok(Query { sql, binds })
    } else {
        let mut sql = String::from_str("DELETE FROM ");
        sql.append(table.as_str());
        query::append_where(&mut sql, "", params);
        Ok(Query { sql, binds })
    }
}

/// Builds the delete (or archive, at the current time) of the rows of `desc`
/// matching `params`.
pub fn delete_query(desc: &ResourceDescriptor, params: &Vec<(String, DatabaseValue)>) -> (r: Result<
    Query,
    QueryError,
>)
    requires
        desc.wf(),
        params@.len() < usize::MAX,
    ensures
        !desc.is_archivable ==> r.is_ok(),
        r.is_ok() ==> exists|now: i128|
            (desc.is_archivable ==> clock::iso8601_of(now as int).is_some()) && is_delete_query(
                r.unwrap(),
                *desc,
                fields::fields_view(params@),
                now as int,
            ),
        r.is_err() ==> r == Err::<Query, QueryError>(QueryError::TimestampOutOfRange),
{
    let now = now_unix_nanos();
    delete_query_at(desc, params, now)
}

/// Builds the SELECT of the rows of `primary` joined with `secondary`, where
/// `<secondary table>.<secondary>_id = <primary table>.<primary>_id`, that
/// match every condition of `params`.
pub fn join_query(
    primary: &ResourceDescriptor,
    secondary: &ResourceDescriptor,
    params: &Vec<(String, DatabaseValue)>,
) -> (r: Query)
    requires
        primary.wf(),
        secondary.wf(),
    ensures
        r.sql@ == query::join_sql(primary.name@, secondary.name@, fields::fields_view(params@)),
        query::values_view(r.binds@) == query::values_of(fields::fields_view(params@)),
{
    let mut sql = String::from_str("SELECT * FROM ");
    let primary_table = table_name(primary.name);
    let secondary_table = table_name(secondary.name);
    let secondary_key = join_key(secondary.name);
    let primary_key = join_key(primary.name);
    sql.append(primary_table.as_str());
    sql.append(" JOIN ");
    sql.append(secondary_table.as_str());
    sql.append(" ON ");
    sql.append(secondary_key.as_str());
    sql.append(" = ");
    sql.append(primary_key.as_str());
    query::append_where(&mut sql, "", params);
    proof {
        reveal_strlit("SELECT * FROM ");
        reveal_strlit(" JOIN ");
        reveal_strlit(" ON ");
        reveal_strlit(" = ");
        reveal_strlit("");
    }
    let binds = query::condition_values(params);
    Query { sql, binds }
}

/// The answer of a find-one from the rows the statement returned: the first,
/// or `NotFound` when there is none.
pub fn first_row<T>(rows: Vec<T>) -> (r: Result<T, QueryError>)
    ensures
        r.is_ok() == (rows@.len() > 0),
        r.is_ok() ==> r.unwrap() == rows@[0],
        r.is_err() ==> r == Err::<T, QueryError>(QueryError::NotFound),
{
    if rows.len() == 0 {
        Err(QueryError::NotFound)
    } else {
        let mut rows = rows;
        Ok(rows.remove(0))
    }
}

/// The answer of a find-all or join from the mapped rows: all of them, in
/// order, or the first mapping failure (no partial result).
pub fn collect_rows<T>(rows: Vec<Result<T, QueryError>>) -> (r: Result<Vec<T>, QueryError>)
    ensures
        r.is_ok() == (forall|i: int| 0 <= i < rows@.len() ==> (#[trigger] rows@[i]).is_ok()),
        r.is_ok() ==> r.unwrap()@.len() == rows@.len() && forall|i: int|
            0 <= i < rows@.len() ==> r.unwrap()@[i] == (#[trigger] rows@[i]).unwrap(),
        r.is_err() ==> exists|k: int|
            0 <= k < rows@.len() && (forall|i: int| 0 <= i < k ==> (#[trigger] rows@[i]).is_ok())
                && rows@[k].is_err() && r->Err_0 == rows@[k]->Err_0,
{
    let ghost all = rows@;
    let n = rows.len();
    let mut rest = rows;
    let mut out: Vec<T> = Vec::new();
    let mut i: usize = 0;
    while rest.len() > 0
        invariant
            i + rest@.len() == all.len(),
            all.len() == n,
            all == rows@,
            rest@ == all.subrange(i as int, all.len() as int),
            out@.len() == i,
            forall|j: int| 0 <= j < i ==> (#[trigger] all[j]).is_ok() && out@[j] == all[j].unwrap(),
        decreases rest@.len(),
    {
        let item = rest.remove(0);
        assert(item == all[i as int]);
        match item {
            Ok(v) => {
                out.push(v);
                i = i + 1;
            },
            Err(e) => {
                assert(all[i as int] == Err::<T, QueryError>(e));
                assert(!all[i as int].is_ok());
                return Err(e);
            },
        }
    }
    Ok(out)
}

} // verus!
