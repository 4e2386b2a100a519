use vstd::prelude::*;

verus! {

use crate::text::string_from_chars;

pub open spec fn is_upper(c: char) -> bool {
    'A' <= c && c <= 'Z'
}

/// A character a resource type name may hold: an ASCII letter, digit or `_`.
pub open spec fn is_name_char(c: char) -> bool {
    ('a' <= c && c <= 'z') || is_upper(c) || ('0' <= c && c <= '9') || c == '_'
}

/// A character of a snake-case word: a lower-case ASCII letter, digit or `_`.
pub open spec fn is_word_char(c: char) -> bool {
    ('a' <= c && c <= 'z') || ('0' <= c && c <= '9') || c == '_'
}

pub open spec fn is_type_name(s: Seq<char>) -> bool {
    forall|i: int| 0 <= i < s.len() ==> is_name_char(#[trigger] s[i])
}

pub open spec fn is_snake_word(s: Seq<char>) -> bool {
    forall|i: int| 0 <= i < s.len() ==> is_word_char(#[trigger] s[i])
}

pub open spec fn to_lower(c: char) -> char {
    if is_upper(c) {
        ((c as u32) + 32) as char
    } else {
        c
    }
}

/// Lower-case, word-boundary-delimited form of a camel-case name: each
/// upper-case letter but a leading one starts a new word after `_`.
pub open spec fn snake_case(s: Seq<char>) -> Seq<char>
    decreases s.len(),
{
    if s.len() == 0 {
        seq![]
    } else if is_upper(s.last()) && s.len() > 1 {
        snake_case(s.drop_last()) + seq!['_', to_lower(s.last())]
    } else {
        snake_case(s.drop_last()) + seq![to_lower(s.last())]
    }
}

fn lower_char(c: char) -> (r: char)
    ensures
        r == to_lower(c),
{
    if 'A' <= c && c <= 'Z' {
        ((c as u8) + 32) as char
    } else {
        c
    }
}

/// Converts a camel-case type name to snake case (`UserBackupCode` becomes
/// `user_backup_code`).
pub fn camel_to_snake_case(name: &str) -> (r: String)
    requires
        is_type_name(name@),
    ensures
        r@ == snake_case(name@),
        is_snake_word(r@),
{
    let n = name.unicode_len();
    let mut out: Vec<char> = Vec::new();
    let mut i: usize = 0;
    while i < n
        invariant
            n == name@.len(),
            i <= n,
            is_type_name(name@),
            out@ == snake_case(name@.take(i as int)),
            is_snake_word(out@),
        decreases n - i,
    {
        let c = name.get_char(i);
        assert(is_name_char(name@[i as int]));
        if 'A' <= c && c <= 'Z' && i > 0 {
            out.push('_');
        }
        out.push(lower_char(c));
        proof {
            assert(name@.take(i + 1).drop_last() =~= name@.take(i as int));
            assert(name@.take(i + 1).last() == c);
            assert(out@ =~= snake_case(name@.take(i + 1)));
        }
        i = i + 1;
    }
    proof {
        assert(name@.take(n as int) =~= name@);
    }
    string_from_chars(out)
}

/// The plural of a word under pluralizer's built-in rules.
pub uninterp spec fn plural_of(word: Seq<char>) -> Seq<char>;

/// Relies on `pluralizer::pluralize(word, 2, false)`: the plural form of the
/// word, by the crate's built-in rule tables (this library never adds rules),
/// and an empty word back unchanged. On lower-case ASCII input the crate's case
/// restoration takes its plain lower-case path, which does not panic.
#[verifier::external_body]
fn pluralize_word(word: &str) -> (r: String)
    requires
        is_snake_word(word@),
    ensures
        r@ == plural_of(word@),
        word@.len() == 0 ==> r@.len() == 0,
{
    pluralizer::pluralize(word, 2, false)
}

/// The table that stores records of the named type.
pub open spec fn table_name_of(resource: Seq<char>) -> Seq<char> {
    plural_of(snake_case(resource))
}

/// The table of a resource type: its name in snake case, pluralised
/// (`UserRole` is stored in `user_roles`).
pub fn table_name(resource: &str) -> (r: String)
    requires
        is_type_name(resource@),
    ensures
        r@ == table_name_of(resource@),
{
    let snake = camel_to_snake_case(resource);
    pluralize_word(snake.as_str())
}

/// The column by which other tables refer to records of the named type,
/// qualified by that type's table: `<table>.<singular>_id`.
pub open spec fn join_key_of(resource: Seq<char>) -> Seq<char> {
    table_name_of(resource) + "."@ + snake_case(resource) + "_id"@
}

pub fn join_key(resource: &str) -> (r: String)
    requires
        is_type_name(resource@),
    ensures
        r@ == join_key_of(resource@),
{
    let snake = camel_to_snake_case(resource);
    let mut r = pluralize_word(snake.as_str());
    r.append(".");
    r.append(snake.as_str());
    r.append("_id");
    proof {
        reveal_strlit(".");
        reveal_strlit("_id");
    }
    r
}

} // verus!
