use vstd::prelude::*;

verus! {

use crate::text::{self, str_contains};
use crate::values::{DatabaseValue, ValueKind};
use crate::resource::ResourceDescriptor;

/// A field name with the value bound to it, as the contracts see them.
pub type FieldView = (Seq<char>, (ValueKind, Seq<char>));

pub open spec fn fields_view(p: Seq<(String, DatabaseValue)>) -> Seq<FieldView> {
    p.map_values(|e: (String, DatabaseValue)| (e.0@, e.1@))
}

/// `k` is the first entry whose name contains `name`.
pub open spec fn first_match(fs: Seq<FieldView>, name: Seq<char>, k: int) -> bool {
    &&& 0 <= k < fs.len()
    &&& text::has_substring(fs[k].0, name)
    &&& forall|j: int| 0 <= j < k ==> !text::has_substring(#[trigger] fs[j].0, name)
}

/// Sets an automatic field: the first entry whose name contains `name` is
/// replaced by `(name, v)`; without such an entry, `(name, v)` is appended.
pub open spec fn with_auto_field(
    fs: Seq<FieldView>,
    name: Seq<char>,
    v: (ValueKind, Seq<char>),
) -> Seq<FieldView> {
    if exists|k: int| first_match(fs, name, k) {
        fs.update(choose|k: int| first_match(fs, name, k), (name, v))
    } else {
        fs.push((name, v))
    }
}

pub proof fn lemma_first_match_unique(fs: Seq<FieldView>, name: Seq<char>, k: int, l: int)
    requires
        first_match(fs, name, k),
        first_match(fs, name, l),
    ensures
        k == l,
{
    if k < l {
        assert(!text::has_substring(fs[k].0, name));
    } else if l < k {
        assert(!text::has_substring(fs[l].0, name));
    }
}

/// A copy of a field list.
pub fn copy_fields(p: &Vec<(String, DatabaseValue)>) -> (r: Vec<(String, DatabaseValue)>)
    ensures
        fields_view(r@) == fields_view(p@),
{
    let mut r: Vec<(String, DatabaseValue)> = Vec::new();
    let mut i: usize = 0;
    while i < p.len()
        invariant
            i <= p.len(),
            r@.len() == i,
            fields_view(r@) == fields_view(p@).take(i as int),
        decreases p.len() - i,
    {
        let name = p[i].0.clone();
        let value = p[i].1.duplicate();
        let ghost old_r = r@;
        r.push((name, value));
        proof {
            assert(r@ == old_r.push((name, value)));
            assert(fields_view(r@)[i as int] == fields_view(p@)[i as int]);
            assert forall|j: int| 0 <= j < i implies fields_view(r@)[j] == fields_view(old_r)[j] by {
                assert(r@[j] == old_r[j]);
            }
            assert(fields_view(r@) =~= fields_view(p@).take(i + 1));
        }
        i = i + 1;
    }
    assert(fields_view(p@).take(p.len() as int) =~= fields_view(p@));
    r
}

/// Sets the automatic field `name` to `value` in place (see `with_auto_field`).
pub fn set_auto_field(p: &mut Vec<(String, DatabaseValue)>, name: &str, value: DatabaseValue)
    ensures
        fields_view(final(p)@) == with_auto_field(fields_view(old(p)@), name@, value@),
{
    let ghost fs = fields_view(p@);
    let mut i: usize = 0;
    while i < p.len()
        invariant
            i <= p.len(),
            fs == fields_view(p@),
            fs == fields_view(old(p)@),
            forall|j: int| 0 <= j < i ==> !text::has_substring(#[trigger] fs[j].0, name@),
        decreases p.len() - i,
    {
        if str_contains(p[i].0.as_str(), name) {
            proof {
                assert(first_match(fs, name@, i as int));
                let k = choose|k: int| first_match(fs, name@, k);
                lemma_first_match_unique(fs, name@, k, i as int);
            }
            let ghost old_p = p@;
            let ghost vv = value@;
            let entry = (String::from_str(name), value);
            p.set(i, entry);
            proof {
                assert(with_auto_field(fs, name@, vv) == fs.update(i as int, (name@, vv)));
                assert(p@ == old_p.update(i as int, entry));
                assert forall|j: int| 0 <= j < p@.len() implies fields_view(p@)[j] == fs.update(
                    i as int,
                    (name@, vv),
                )[j] by {
                    if j != i {
                        assert(p@[j] == old_p[j]);
                    }
                }
                assert(fields_view(p@) =~= with_auto_field(fs, name@, vv));
            }
            return;
        }
        i = i + 1;
    }
    assert(forall|k: int| !first_match(fs, name@, k));
    let ghost old_p = p@;
    let ghost vv = value@;
    let entry = (String::from_str(name), value);
    p.push(entry);
    proof {
        assert(p@ == old_p.push(entry));
        assert forall|j: int| 0 <= j < p@.len() implies fields_view(p@)[j] == fs.push(
            (name@, vv),
        )[j] by {
            if j < old_p.len() {
                assert(p@[j] == old_p[j]);
            }
        }
        assert(fields_view(p@) =~= fs.push((name@, vv)));
    }
}

/// The fields an insert writes: the caller's, then a generated `id` when the
/// type has one, then `created_at`, `updated_at` (both the insert's instant)
/// and `expires_at`, each set by `with_auto_field` when the type asks for it.
pub open spec fn insert_fields(
    desc: ResourceDescriptor,
    fs: Seq<FieldView>,
    id: Seq<char>,
    stamp: Seq<char>,
    expires: Seq<char>,
) -> Seq<FieldView> {
    let a = if desc.has_id {
        fs.push(("id"@, (ValueKind::String, id)))
    } else {
        fs
    };
    let b = if desc.is_creatable {
        with_auto_field(a, "created_at"@, (ValueKind::DateTime, stamp))
    } else {
        a
    };
    let c = if desc.is_updatable {
        with_auto_field(b, "updated_at"@, (ValueKind::DateTime, stamp))
    } else {
        b
    };
    if desc.is_expirable {
        with_auto_field(c, "expires_at"@, (ValueKind::DateTime, expires))
    } else {
        c
    }
}

/// The fields an update writes: the caller's, with `updated_at` and
/// `expires_at` set by `with_auto_field` when the type asks for them.
pub open spec fn update_fields(
    desc: ResourceDescriptor,
    fs: Seq<FieldView>,
    stamp: Seq<char>,
    expires: Seq<char>,
) -> Seq<FieldView> {
    let a = if desc.is_updatable {
        with_auto_field(fs, "updated_at"@, (ValueKind::DateTime, stamp))
    } else {
        fs
    };
    if desc.is_expirable {
        with_auto_field(a, "expires_at"@, (ValueKind::DateTime, expires))
    } else {
        a
    }
}

/// The field list of an insert (see `insert_fields`).
pub fn prepare_insert_fields(
    desc: &ResourceDescriptor,
    p: &Vec<(String, DatabaseValue)>,
    id: &str,
    stamp: &str,
    expires: &str,
) -> (r: Vec<(String, DatabaseValue)>)
    ensures
        fields_view(r@) == insert_fields(*desc, fields_view(p@), id@, stamp@, expires@),
{
    let mut r = copy_fields(p);
    if desc.has_id {
        let ghost before = r@;
        let entry = (String::from_str("id"), DatabaseValue::String(String::from_str(id)));
        r.push(entry);
        proof {
            reveal_strlit("id");
            assert(r@ == before.push(entry));
            assert forall|j: int| 0 <= j < r@.len() implies fields_view(r@)[j] == fields_view(
                before,
            ).push(("id"@, (ValueKind::String, id@)))[j] by {
                if j < before.len() {
                    assert(r@[j] == before[j]);
                }
            }
            assert(fields_view(r@) =~= fields_view(before).push(("id"@, (ValueKind::String, id@))));
        }
    }
    if desc.is_creatable {
        set_auto_field(&mut r, "created_at", DatabaseValue::DateTime(String::from_str(stamp)));
    }
    if desc.is_updatable {
        set_auto_field(&mut r, "updated_at", DatabaseValue::DateTime(String::from_str(stamp)));
    }
    if desc.is_expirable {
        set_auto_field(&mut r, "expires_at", DatabaseValue::DateTime(String::from_str(expires)));
    }
    r
}

/// The field list of an update (see `update_fields`).
pub fn prepare_update_fields(
    desc: &ResourceDescriptor,
    p: &Vec<(String, DatabaseValue)>,
    stamp: &str,
    expires: &str,
) -> (r: Vec<(String, DatabaseValue)>)
    ensures
        fields_view(r@) == update_fields(*desc, fields_view(p@), stamp@, expires@),
{
    let mut r = copy_fields(p);
    if desc.is_updatable {
        set_auto_field(&mut r, "updated_at", DatabaseValue::DateTime(String::from_str(stamp)));
    }
    if desc.is_expirable {
        set_auto_field(&mut r, "expires_at", DatabaseValue::DateTime(String::from_str(expires)));
    }
    r
}

} // verus!
