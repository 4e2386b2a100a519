//! What the built statements do to a table, in the terms of the laws below:
//! a row maps column names to text (`None` is SQL NULL), a condition
//! `<field> = $k` holds where the column holds the bound text, and NULL
//! matches nothing.

use vstd::prelude::*;
use crate::fields::{self, FieldView};
use crate::operations;
use crate::query::ArchiveFilter;
use crate::resource::ResourceDescriptor;
use crate::text;
use crate::values::ValueKind;

verus! {

pub type Row = Map<Seq<char>, Option<Seq<char>>>;

/// What a bound value stores: its text, or NULL.
pub open spec fn stored(v: (ValueKind, Seq<char>)) -> Option<Seq<char>> {
    if v.0 == ValueKind::Null {
        Option::None
    } else {
        Option::Some(v.1)
    }
}

/// The row written by a field list; a later entry for a name wins.
pub open spec fn row_of(fs: Seq<FieldView>) -> Row
    decreases fs.len(),
{
    if fs.len() == 0 {
        Map::empty()
    } else {
        row_of(fs.drop_last()).insert(fs.last().0, stored(fs.last().1))
    }
}

/// The condition `<c.0> = <c.1>` holds of the row.
pub open spec fn holds(row: Row, c: FieldView) -> bool {
    &&& c.1.0 != ValueKind::Null
    &&& row.contains_key(c.0)
    &&& row[c.0] == Option::Some(c.1.1)
}

/// Every condition holds of the row.
pub open spec fn matches(row: Row, conds: Seq<FieldView>) -> bool {
    forall|i: int| 0 <= i < conds.len() ==> holds(row, #[trigger] conds[i])
}

pub open spec fn is_archived(row: Row) -> bool {
    row.contains_key("archived_at"@) && row["archived_at"@] is Some
}

pub open spec fn passes(filter: ArchiveFilter, row: Row) -> bool {
    match filter {
        ArchiveFilter::Any => true,
        ArchiveFilter::Unarchived => !is_archived(row),
        ArchiveFilter::Archived => is_archived(row),
    }
}

/// The rows a find with `filter` and `conds` returns, in table order.
pub open spec fn selected(t: Seq<Row>, filter: ArchiveFilter, conds: Seq<FieldView>) -> Seq<Row> {
    t.filter(|r: Row| passes(filter, r) && matches(r, conds))
}

/// A find-one with `filter` and `conds` finds a row.
pub open spec fn found(t: Seq<Row>, filter: ArchiveFilter, conds: Seq<FieldView>) -> bool {
    exists|i: int| 0 <= i < t.len() && passes(filter, t[i]) && matches(t[i], conds)
}

/// The table after an INSERT writing `written`.
pub open spec fn after_insert(t: Seq<Row>, written: Seq<FieldView>) -> Seq<Row> {
    t.push(row_of(written))
}

/// The row with id `id` after an UPDATE writing `written` into it.
pub open spec fn updated_row(r: Row, id: Seq<char>, written: Seq<FieldView>) -> Row {
    if r.contains_key("id"@) && r["id"@] == Option::Some(id) {
        r.union_prefer_right(row_of(written))
    } else {
        r
    }
}

pub open spec fn after_update(t: Seq<Row>, id: Seq<char>, written: Seq<FieldView>) -> Seq<Row> {
    t.map_values(|r: Row| updated_row(r, id, written))
}

pub open spec fn archived_row(r: Row, conds: Seq<FieldView>, stamp: Seq<char>) -> Row {
    if matches(r, conds) {
        r.insert("archived_at"@, Option::Some(stamp))
    } else {
        r
    }
}

/// The table after the statement of `operations::delete_query_at` at `now`:
/// matching rows archived, or removed where the type is not archivable.
pub open spec fn after_delete(
    t: Seq<Row>,
    desc: ResourceDescriptor,
    conds: Seq<FieldView>,
    now: int,
) -> Seq<Row> {
    if desc.is_archivable {
        t.map_values(|r: Row| archived_row(r, conds, operations::stamp_of(now)))
    } else {
        t.filter(|r: Row| !matches(r, conds))
    }
}

/// None of the conditions is on `archived_at`.
pub open spec fn leaves_archive_alone(conds: Seq<FieldView>) -> bool {
    forall|i: int| 0 <= i < conds.len() ==> (#[trigger] conds[i]).0 != "archived_at"@
}

/// Deleting from a type that is not archivable removes every row matching the
/// conditions: a find-one with the same conditions then finds nothing.
pub proof fn law_delete_removes(
    desc: ResourceDescriptor,
    t: Seq<Row>,
    conds: Seq<FieldView>,
    now: int,
)
    requires
        !desc.is_archivable,
    ensures
        !found(after_delete(t, desc, conds, now), ArchiveFilter::Any, conds),
{
    let pred = |r: Row| !matches(r, conds);
    let after = t.filter(pred);
    assert(after == after_delete(t, desc, conds, now));
    if found(after, ArchiveFilter::Any, conds) {
        let i = choose|i: int|
            0 <= i < after.len() && passes(ArchiveFilter::Any, after[i]) && matches(after[i], conds);
        t.lemma_filter_pred(pred, i);
    }
}

/// Deleting from an archivable type keeps every row, and afterwards no row
/// matching the conditions passes the unarchived filter.
pub proof fn law_archive_hides(
    desc: ResourceDescriptor,
    t: Seq<Row>,
    conds: Seq<FieldView>,
    now: int,
)
    requires
        desc.is_archivable,
    ensures
        after_delete(t, desc, conds, now).len() == t.len(),
        !found(after_delete(t, desc, conds, now), ArchiveFilter::Unarchived, conds),
{
    let after = after_delete(t, desc, conds, now);
    if found(after, ArchiveFilter::Unarchived, conds) {
        let i = choose|i: int|
            0 <= i < after.len() && passes(ArchiveFilter::Unarchived, after[i]) && matches(
                after[i],
                conds,
            );
        if matches(t[i], conds) {
            assert(is_archived(after[i]));
        } else {
            assert(after[i] == t[i]);
            assert forall|j: int| 0 <= j < conds.len() implies holds(t[i], #[trigger] conds[j]) by {
                assert(holds(after[i], conds[j]));
            }
        }
    }
}

/// Deleting from an archivable type keeps every matching row retrievable:
/// each is then found by a find with the archived filter and the same
/// conditions. (A condition on `archived_at` itself is left out: archiving
/// rewrites that column.)
pub proof fn law_archive_keeps(
    desc: ResourceDescriptor,
    t: Seq<Row>,
    conds: Seq<FieldView>,
    now: int,
)
    requires
        desc.is_archivable,
        leaves_archive_alone(conds),
    ensures
        forall|i: int|
            0 <= i < t.len() && matches(t[i], conds) ==> {
                let r = #[trigger] after_delete(t, desc, conds, now)[i];
                passes(ArchiveFilter::Archived, r) && matches(r, conds)
            },
        found(t, ArchiveFilter::Any, conds) ==> found(
            after_delete(t, desc, conds, now),
            ArchiveFilter::Archived,
            conds,
        ),
{
    let stamp = operations::stamp_of(now);
    let after = after_delete(t, desc, conds, now);
    assert forall|i: int| 0 <= i < t.len() && matches(t[i], conds) implies {
        let r = #[trigger] after[i];
        passes(ArchiveFilter::Archived, r) && matches(r, conds)
    } by {
        let r = after[i];
        assert(r == t[i].insert("archived_at"@, Option::Some(stamp)));
        assert forall|j: int| 0 <= j < conds.len() implies holds(r, #[trigger] conds[j]) by {
            assert(holds(t[i], conds[j]));
            assert(conds[j].0 != "archived_at"@);
        }
    }
    if found(t, ArchiveFilter::Any, conds) {
        let i = choose|i: int|
            0 <= i < t.len() && passes(ArchiveFilter::Any, t[i]) && matches(t[i], conds);
        assert(passes(ArchiveFilter::Archived, after[i]) && matches(after[i], conds));
    }
}

/// A find-all whose conditions match no row returns no rows (and a find-one
/// finds nothing).
pub proof fn law_find_all_empty(t: Seq<Row>, filter: ArchiveFilter, conds: Seq<FieldView>)
    requires
        !found(t, filter, conds),
    ensures
        selected(t, filter, conds).len() == 0,
{
    let pred = |r: Row| passes(filter, r) && matches(r, conds);
    if selected(t, filter, conds).len() > 0 {
        t.lemma_filter_pred(pred, 0);
        let r = t.filter(pred)[0];
        assert(t.filter(pred).contains(r));
        t.lemma_filter_contains_rev(pred, r);
        let i = choose|i: int| 0 <= i < t.len() && t[i] == r;
        assert(passes(filter, t[i]) && matches(t[i], conds));
    }
}

/// A caller's field name that no automatic field touches: not `id`, and
/// containing none of `created_at`, `updated_at`, `expires_at`.
pub open spec fn is_plain_name(name: Seq<char>) -> bool {
    &&& name != "id"@
    &&& !text::has_substring(name, "created_at"@)
    &&& !text::has_substring(name, "updated_at"@)
    &&& !text::has_substring(name, "expires_at"@)
}

/// Plain field names, each used once.
pub open spec fn plain_fields(fs: Seq<FieldView>) -> bool {
    &&& forall|i: int| 0 <= i < fs.len() ==> is_plain_name(#[trigger] fs[i].0)
    &&& forall|i: int, j: int| 0 <= i < j < fs.len() ==> fs[i].0 != fs[j].0
}

proof fn lemma_self_substring(s: Seq<char>)
    ensures
        text::has_substring(s, s),
{
    assert(s.subrange(0, 0 + s.len() as int) =~= s);
    assert(0 + s.len() <= s.len());
}

/// A word is not found inside a shorter one, nor inside another of the same
/// length.
proof fn lemma_no_substring(hay: Seq<char>, needle: Seq<char>)
    requires
        hay.len() < needle.len() || (hay.len() == needle.len() && hay != needle),
    ensures
        !text::has_substring(hay, needle),
{
    if text::has_substring(hay, needle) {
        let i = choose|i: int|
            0 <= i && i + needle.len() <= hay.len() && #[trigger] hay.subrange(i, i + needle.len())
                == needle;
        assert(i == 0);
        assert(hay.subrange(0, hay.len() as int) =~= hay);
    }
}

/// Where no name contains `name`, setting the automatic field appends it.
proof fn lemma_auto_appends(fs: Seq<FieldView>, name: Seq<char>, v: (ValueKind, Seq<char>))
    requires
        forall|i: int| 0 <= i < fs.len() ==> !text::has_substring(#[trigger] fs[i].0, name),
    ensures
        fields::with_auto_field(fs, name, v) == fs.push((name, v)),
{
    assert(!exists|k: int| fields::first_match(fs, name, k));
}

/// The row holds an entry's value where no later entry has its name.
proof fn lemma_row_of_entry(fs: Seq<FieldView>, i: int)
    requires
        0 <= i < fs.len(),
        forall|j: int| i < j < fs.len() ==> (#[trigger] fs[j]).0 != fs[i].0,
    ensures
        row_of(fs).contains_key(fs[i].0),
        row_of(fs)[fs[i].0] == stored(fs[i].1),
    decreases fs.len(),
{
    if i < fs.len() - 1 {
        let init = fs.drop_last();
        assert forall|j: int| i < j < init.len() implies (#[trigger] init[j]).0 != init[i].0 by {
            assert(init[j] == fs[j]);
        }
        lemma_row_of_entry(init, i);
        assert(fs.last() == fs[fs.len() - 1]);
    }
}

/// The row has no column that no entry names.
proof fn lemma_row_of_absent(fs: Seq<FieldView>, k: Seq<char>)
    requires
        forall|j: int| 0 <= j < fs.len() ==> (#[trigger] fs[j]).0 != k,
    ensures
        !row_of(fs).contains_key(k),
    decreases fs.len(),
{
    if fs.len() > 0 {
        let init = fs.drop_last();
        assert forall|j: int| 0 <= j < init.len() implies (#[trigger] init[j]).0 != k by {
            assert(init[j] == fs[j]);
        }
        lemma_row_of_absent(init, k);
        assert(fs.last() == fs[fs.len() - 1]);
    }
}

proof fn lemma_auto_names_differ()
    ensures
        "id"@ != "created_at"@,
        "id"@ != "updated_at"@,
        "id"@ != "expires_at"@,
        "created_at"@ != "updated_at"@,
        "created_at"@ != "expires_at"@,
        "updated_at"@ != "expires_at"@,
        !text::has_substring("id"@, "created_at"@),
        !text::has_substring("id"@, "updated_at"@),
        !text::has_substring("id"@, "expires_at"@),
        !text::has_substring("created_at"@, "updated_at"@),
        !text::has_substring("created_at"@, "expires_at"@),
        !text::has_substring("updated_at"@, "expires_at"@),
{
    reveal_strlit("id");
    reveal_strlit("created_at");
    reveal_strlit("updated_at");
    reveal_strlit("expires_at");
    assert("created_at"@[0] != "updated_at"@[0]);
    assert("created_at"@[0] != "expires_at"@[0]);
    assert("updated_at"@[0] != "expires_at"@[0]);
    lemma_no_substring("id"@, "created_at"@);
    lemma_no_substring("id"@, "updated_at"@);
    lemma_no_substring("id"@, "expires_at"@);
    lemma_no_substring("created_at"@, "updated_at"@);
    lemma_no_substring("created_at"@, "expires_at"@);
    lemma_no_substring("updated_at"@, "expires_at"@);
}

/// A plain name is none of the automatic field names.
proof fn lemma_plain_name_differs(name: Seq<char>)
    requires
        is_plain_name(name),
    ensures
        name != "id"@,
        name != "created_at"@,
        name != "updated_at"@,
        name != "expires_at"@,
{
    lemma_self_substring(name);
}

/// The single condition `id = <id>`.
pub open spec fn id_conds(id: Seq<char>) -> Seq<FieldView> {
    seq![("id"@, (ValueKind::String, id))]
}

/// With plain caller fields, an insert writes the caller's fields followed by
/// the automatic ones, each appended.
proof fn lemma_insert_fields_shape(
    desc: ResourceDescriptor,
    fs: Seq<FieldView>,
    id: Seq<char>,
    stamp: Seq<char>,
    expires: Seq<char>,
)
    requires
        plain_fields(fs),
    ensures
        ({
            let a = if desc.has_id {
                fs.push(("id"@, (ValueKind::String, id)))
            } else {
                fs
            };
            let b = if desc.is_creatable {
                a.push(("created_at"@, (ValueKind::DateTime, stamp)))
            } else {
                a
            };
            let c = if desc.is_updatable {
                b.push(("updated_at"@, (ValueKind::DateTime, stamp)))
            } else {
                b
            };
            fields::insert_fields(desc, fs, id, stamp, expires) == if desc.is_expirable {
                c.push(("expires_at"@, (ValueKind::DateTime, expires)))
            } else {
                c
            }
        }),
{
    lemma_auto_names_differ();
    let a = if desc.has_id {
        fs.push(("id"@, (ValueKind::String, id)))
    } else {
        fs
    };
    assert forall|i: int| 0 <= i < a.len() implies !text::has_substring(
        #[trigger] a[i].0,
        "created_at"@,
    ) by {
        if i < fs.len() {
            assert(is_plain_name(fs[i].0));
        }
    }
    lemma_auto_appends(a, "created_at"@, (ValueKind::DateTime, stamp));
    let b = if desc.is_creatable {
        a.push(("created_at"@, (ValueKind::DateTime, stamp)))
    } else {
        a
    };
    assert forall|i: int| 0 <= i < b.len() implies !text::has_substring(
        #[trigger] b[i].0,
        "updated_at"@,
    ) by {
        if i < fs.len() {
            assert(is_plain_name(fs[i].0));
        } else if i < a.len() {
            assert(a[i].0 == "id"@);
        }
    }
    lemma_auto_appends(b, "updated_at"@, (ValueKind::DateTime, stamp));
    let c = if desc.is_updatable {
        b.push(("updated_at"@, (ValueKind::DateTime, stamp)))
    } else {
        b
    };
    assert forall|i: int| 0 <= i < c.len() implies !text::has_substring(
        #[trigger] c[i].0,
        "expires_at"@,
    ) by {
        if i < fs.len() {
            assert(is_plain_name(fs[i].0));
        } else if i < a.len() {
            assert(a[i].0 == "id"@);
        } else if i < b.len() {
            assert(b[i].0 == "created_at"@);
        }
    }
    lemma_auto_appends(c, "expires_at"@, (ValueKind::DateTime, expires));
}

/// Insert then find-one by id: a record of a type with ids is found by a
/// find-one on the id it was given; the new row holds every field the caller
/// gave, as given, and, for a creatable type, the insert's instant as
/// `created_at`.
pub proof fn law_insert_round_trip(
    desc: ResourceDescriptor,
    t: Seq<Row>,
    fs: Seq<FieldView>,
    id: Seq<char>,
    now: int,
)
    requires
        desc.has_id,
        plain_fields(fs),
    ensures
        ({
            let written = fields::insert_fields(
                desc,
                fs,
                id,
                operations::stamp_of(now),
                operations::expiry_stamp_of(now),
            );
            let row = row_of(written);
            &&& after_insert(t, written).last() == row
            &&& found(after_insert(t, written), ArchiveFilter::Any, id_conds(id))
            &&& forall|i: int|
                0 <= i < fs.len() ==> row.contains_key(#[trigger] fs[i].0) && row[fs[i].0]
                    == stored(fs[i].1)
            &&& desc.is_creatable ==> row.contains_key("created_at"@) && row["created_at"@]
                == Option::Some(operations::stamp_of(now))
        }),
{
    let stamp = operations::stamp_of(now);
    let expires = operations::expiry_stamp_of(now);
    lemma_insert_fields_shape(desc, fs, id, stamp, expires);
    lemma_auto_names_differ();
    let w = fields::insert_fields(desc, fs, id, stamp, expires);
    let row = row_of(w);
    let n = fs.len() as int;
    assert(w.len() >= n + 1);
    assert(w[n] == ("id"@, (ValueKind::String, id)));
    assert forall|j: int| n < j < w.len() implies (#[trigger] w[j]).0 != w[n].0 by {}
    lemma_row_of_entry(w, n);
    let after = after_insert(t, w);
    assert(after[t.len() as int] == row);
    assert(matches(row, id_conds(id)));
    assert(passes(ArchiveFilter::Any, after[t.len() as int]));
    assert forall|i: int| 0 <= i < fs.len() implies row.contains_key(#[trigger] fs[i].0)
        && row[fs[i].0] == stored(fs[i].1) by {
        lemma_plain_name_differs(fs[i].0);
        assert(w[i] == fs[i]);
        assert forall|j: int| i < j < w.len() implies (#[trigger] w[j]).0 != w[i].0 by {
            if j < n {
                assert(w[j] == fs[j]);
            }
        }
        lemma_row_of_entry(w, i);
    }
    if desc.is_creatable {
        let k = n + 1;
        assert(w[k] == ("created_at"@, (ValueKind::DateTime, stamp)));
        assert forall|j: int| k < j < w.len() implies (#[trigger] w[j]).0 != w[k].0 by {}
        lemma_row_of_entry(w, k);
    }
}

/// With plain caller fields, an update writes the caller's fields followed by
/// the automatic ones, each appended.
proof fn lemma_update_fields_shape(
    desc: ResourceDescriptor,
    fs: Seq<FieldView>,
    stamp: Seq<char>,
    expires: Seq<char>,
)
    requires
        plain_fields(fs),
    ensures
        ({
            let a = if desc.is_updatable {
                fs.push(("updated_at"@, (ValueKind::DateTime, stamp)))
            } else {
                fs
            };
            fields::update_fields(desc, fs, stamp, expires) == if desc.is_expirable {
                a.push(("expires_at"@, (ValueKind::DateTime, expires)))
            } else {
                a
            }
        }),
{
    lemma_auto_names_differ();
    assert forall|i: int| 0 <= i < fs.len() implies !text::has_substring(
        #[trigger] fs[i].0,
        "updated_at"@,
    ) by {
        assert(is_plain_name(fs[i].0));
    }
    lemma_auto_appends(fs, "updated_at"@, (ValueKind::DateTime, stamp));
    let a = if desc.is_updatable {
        fs.push(("updated_at"@, (ValueKind::DateTime, stamp)))
    } else {
        fs
    };
    assert forall|i: int| 0 <= i < a.len() implies !text::has_substring(
        #[trigger] a[i].0,
        "expires_at"@,
    ) by {
        if i < fs.len() {
            assert(is_plain_name(fs[i].0));
        }
    }
    lemma_auto_appends(a, "expires_at"@, (ValueKind::DateTime, expires));
}

/// The row with id `id`, after the update writing `written`, holds every
/// plain field of `fs` as set, and the update's `updated_at` when the type is
/// updatable.
proof fn lemma_updated_row_holds(
    desc: ResourceDescriptor,
    r: Row,
    id: Seq<char>,
    fs: Seq<FieldView>,
    now: int,
)
    requires
        plain_fields(fs),
        r.contains_key("id"@),
        r["id"@] == Option::Some(id),
    ensures
        ({
            let w = fields::update_fields(
                desc,
                fs,
                operations::stamp_of(now),
                operations::expiry_stamp_of(now),
            );
            let u = updated_row(r, id, w);
            &&& u.contains_key("id"@) && u["id"@] == Option::Some(id)
            &&& forall|i: int|
                0 <= i < fs.len() ==> u.contains_key(#[trigger] fs[i].0) && u[fs[i].0] == stored(
                    fs[i].1,
                )
            &&& desc.is_updatable ==> u.contains_key("updated_at"@) && u["updated_at"@]
                == Option::Some(operations::stamp_of(now))
        }),
{
    let stamp = operations::stamp_of(now);
    let expires = operations::expiry_stamp_of(now);
    lemma_update_fields_shape(desc, fs, stamp, expires);
    lemma_auto_names_differ();
    let w = fields::update_fields(desc, fs, stamp, expires);
    let n = fs.len() as int;
    let u = updated_row(r, id, w);
    assert(u == r.union_prefer_right(row_of(w)));
    assert forall|j: int| 0 <= j < w.len() implies (#[trigger] w[j]).0 != "id"@ by {
        if j < n {
            assert(w[j] == fs[j]);
            lemma_plain_name_differs(fs[j].0);
        }
    }
    lemma_row_of_absent(w, "id"@);
    assert forall|i: int| 0 <= i < fs.len() implies u.contains_key(#[trigger] fs[i].0) && u[fs[i].0]
        == stored(fs[i].1) by {
        lemma_plain_name_differs(fs[i].0);
        assert(w[i] == fs[i]);
        assert forall|j: int| i < j < w.len() implies (#[trigger] w[j]).0 != w[i].0 by {
            if j < n {
                assert(w[j] == fs[j]);
            }
        }
        lemma_row_of_entry(w, i);
    }
    if desc.is_updatable {
        assert(w[n] == ("updated_at"@, (ValueKind::DateTime, stamp)));
        assert forall|j: int| n < j < w.len() implies (#[trigger] w[j]).0 != w[n].0 by {}
        lemma_row_of_entry(w, n);
    }
}

/// Update then find-one by id: after an update of record `id`, a find on the
/// id still finds the record, and every row it finds holds every field the
/// update set, as set, and, for an updatable type, the update's instant as
/// `updated_at`.
pub proof fn law_update_then_find(
    desc: ResourceDescriptor,
    t: Seq<Row>,
    id: Seq<char>,
    fs: Seq<FieldView>,
    now: int,
    k: int,
)
    requires
        plain_fields(fs),
        0 <= k < t.len(),
        t[k].contains_key("id"@),
        t[k]["id"@] == Option::Some(id),
    ensures
        ({
            let written = fields::update_fields(
                desc,
                fs,
                operations::stamp_of(now),
                operations::expiry_stamp_of(now),
            );
            let after = after_update(t, id, written);
            &&& found(after, ArchiveFilter::Any, id_conds(id))
            &&& forall|j: int|
                0 <= j < after.len() && matches(#[trigger] after[j], id_conds(id)) ==> {
                    &&& forall|i: int|
                        0 <= i < fs.len() ==> after[j].contains_key(#[trigger] fs[i].0)
                            && after[j][fs[i].0] == stored(fs[i].1)
                    &&& desc.is_updatable ==> after[j].contains_key("updated_at"@)
                        && after[j]["updated_at"@] == Option::Some(operations::stamp_of(now))
                }
        }),
{
    let w = fields::update_fields(
        desc,
        fs,
        operations::stamp_of(now),
        operations::expiry_stamp_of(now),
    );
    let after = after_update(t, id, w);
    lemma_updated_row_holds(desc, t[k], id, fs, now);
    assert(after[k] == updated_row(t[k], id, w));
    assert(holds(after[k], id_conds(id)[0]));
    assert(matches(after[k], id_conds(id)));
    assert(passes(ArchiveFilter::Any, after[k]));
    assert forall|j: int| 0 <= j < after.len() && matches(#[trigger] after[j], id_conds(id)) implies {
        &&& forall|i: int|
            0 <= i < fs.len() ==> after[j].contains_key(#[trigger] fs[i].0) && after[j][fs[i].0]
                == stored(fs[i].1)
        &&& desc.is_updatable ==> after[j].contains_key("updated_at"@) && after[j]["updated_at"@]
            == Option::Some(operations::stamp_of(now))
    } by {
        assert(holds(after[j], id_conds(id)[0]));
        assert(after[j] == updated_row(t[j], id, w));
        if t[j].contains_key("id"@) && t[j]["id"@] == Option::Some(id) {
            lemma_updated_row_holds(desc, t[j], id, fs, now);
        } else {
            assert(after[j] == t[j]);
        }
    }
}

} // verus!
