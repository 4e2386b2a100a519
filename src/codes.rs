use vstd::prelude::*;
use rand::Rng;
use sha2::{Digest, Sha256};
use time::OffsetDateTime;
use crate::text::{self, string_from_chars};

verus! {

/// How many backup codes a new user receives.
pub const BACKUP_CODE_COUNT: usize = 10;

/// How many digest bytes a backup code shows.
pub const BACKUP_CODE_BYTES: usize = 7;

/// The SHA-256 digest of the bytes.
pub uninterp spec fn sha256_of(data: Seq<u8>) -> Seq<u8>;

/// Relies on `sha2::Sha256::digest`: the SHA-256 digest of the input, which
/// is 32 bytes long.
#[verifier::external_body]
fn sha256(data: &[u8]) -> (r: Vec<u8>)
    ensures
        r@ == sha256_of(data@),
        r@.len() == 32,
{
    Sha256::digest(data).to_vec()
}

/// Relies on `rand::rng().random_range(0..bound)`: a number below `bound`,
/// drawn by the thread-local generator (which panics on an empty range).
#[verifier::external_body]
fn random_below(bound: u32) -> (r: u32)
    requires
        bound > 0,
    ensures
        r < bound,
{
    rand::rng().random_range(0..bound)
}

/// Relies on `time::OffsetDateTime::now_utc` and `unix_timestamp`: the
/// current time in whole seconds since the Unix epoch.
#[verifier::external_body]
fn now_unix_seconds() -> (r: i64) {
    OffsetDateTime::now_utc().unix_timestamp()
}

/// Lower-case hexadecimal digit of `d < 16`.
pub open spec fn hex_digit(d: nat) -> char {
    if d < 10 {
        text::digit_char(d)
    } else if d == 10 {
        'a'
    } else if d == 11 {
        'b'
    } else if d == 12 {
        'c'
    } else if d == 13 {
        'd'
    } else if d == 14 {
        'e'
    } else {
        'f'
    }
}

/// Two lower-case hexadecimal digits per byte, high digit first.
pub open spec fn hex_of(bytes: Seq<u8>) -> Seq<char>
    decreases bytes.len(),
{
    if bytes.len() == 0 {
        seq![]
    } else {
        hex_of(bytes.drop_last()) + seq![
            hex_digit((bytes.last() / 16) as nat),
            hex_digit((bytes.last() % 16) as nat),
        ]
    }
}

fn hex_char(d: u8) -> (r: char)
    requires
        d < 16,
    ensures
        r == hex_digit(d as nat),
{
    if d == 0 {
        '0'
    } else if d == 1 {
        '1'
    } else if d == 2 {
        '2'
    } else if d == 3 {
        '3'
    } else if d == 4 {
        '4'
    } else if d == 5 {
        '5'
    } else if d == 6 {
        '6'
    } else if d == 7 {
        '7'
    } else if d == 8 {
        '8'
    } else if d == 9 {
        '9'
    } else if d == 10 {
        'a'
    } else if d == 11 {
        'b'
    } else if d == 12 {
        'c'
    } else if d == 13 {
        'd'
    } else if d == 14 {
        'e'
    } else {
        'f'
    }
}

/// The first `count` bytes in hexadecimal.
pub fn hex_prefix(bytes: &Vec<u8>, count: usize) -> (r: String)
    requires
        count <= bytes@.len(),
    ensures
        r@ == hex_of(bytes@.take(count as int)),
{
    let mut out: Vec<char> = Vec::new();
    let mut i: usize = 0;
    while i < count
        invariant
            i <= count <= bytes@.len(),
            out@ == hex_of(bytes@.take(i as int)),
        decreases count - i,
    {
        let b = bytes[i];
        out.push(hex_char(b / 16));
        out.push(hex_char(b % 16));
        proof {
            assert(bytes@.take(i + 1).drop_last() =~= bytes@.take(i as int));
            assert(bytes@.take(i + 1).last() == b);
            assert(out@ =~= hex_of(bytes@.take(i + 1)));
        }
        i = i + 1;
    }
    string_from_chars(out)
}

/// How passwords are stored: the SHA-256 digest of their UTF-8 bytes, in
/// lower-case hexadecimal.
pub open spec fn password_hash_of(password: Seq<char>) -> Seq<char> {
    hex_of(sha256_of(vstd::utf8::encode_utf8(password)))
}

/// The stored form of a password (see `password_hash_of`).
pub fn hash_password(password: &str) -> (r: String)
    ensures
        r@ == password_hash_of(password@),
{
    let digest = sha256(password.as_bytes());
    let r = hex_prefix(&digest, digest.len());
    proof {
        assert(digest@.take(digest@.len() as int) =~= digest@);
    }
    r
}

/// ASCII decimal digits of a natural number, without leading zeros.
pub open spec fn decimal_bytes(n: nat) -> Seq<u8>
    decreases n,
{
    if n < 10 {
        seq![(48 + n) as u8]
    } else {
        decimal_bytes(n / 10).push((48 + n % 10) as u8)
    }
}

fn append_decimal_bytes(v: &mut Vec<u8>, n: u64)
    ensures
        final(v)@ == old(v)@ + decimal_bytes(n as nat),
    decreases n,
{
    if n < 10 {
        v.push((48 + n) as u8);
        assert(final(v)@ =~= old(v)@ + decimal_bytes(n as nat));
    } else {
        append_decimal_bytes(v, n / 10);
        let ghost mid = v@;
        v.push((48 + n % 10) as u8);
        assert(v@ =~= old(v)@ + decimal_bytes(n as nat));
    }
}

/// A timestamp written as Rust's `Debug` writes an `i64`: a minus sign for
/// negative values, then the decimal digits.
pub open spec fn timestamp_bytes(ts: int) -> Seq<u8> {
    if ts < 0 {
        seq![45u8] + decimal_bytes((-ts) as nat)
    } else {
        decimal_bytes(ts as nat)
    }
}

/// A number below a million as six ASCII digits, zero-padded.
pub open spec fn six_digits(n: nat) -> Seq<u8> {
    seq![
        (48 + n / 100000 % 10) as u8,
        (48 + n / 10000 % 10) as u8,
        (48 + n / 1000 % 10) as u8,
        (48 + n / 100 % 10) as u8,
        (48 + n / 10 % 10) as u8,
        (48 + n % 10) as u8,
    ]
}

/// The backup code drawn from `number` at second `ts`: the first seven bytes
/// of the SHA-256 digest of the timestamp followed by the six-digit number,
/// in hexadecimal.
pub open spec fn backup_code_of(ts: int, number: nat) -> Seq<char> {
    hex_of(sha256_of(timestamp_bytes(ts) + six_digits(number)).take(BACKUP_CODE_BYTES as int))
}

/// The backup code for a drawn number below a million at second `ts`.
pub fn backup_code_text(ts: i64, number: u32) -> (r: String)
    requires
        number < 1_000_000,
    ensures
        r@ == backup_code_of(ts as int, number as nat),
        r@.len() == 2 * BACKUP_CODE_BYTES,
{
    let mut seed: Vec<u8> = Vec::new();
    if ts < 0 {
        seed.push(45u8);
        let magnitude: u64 = (0i128 - ts as i128) as u64;
        append_decimal_bytes(&mut seed, magnitude);
    } else {
        append_decimal_bytes(&mut seed, ts as u64);
    }
    let ghost stamp = seed@;
    seed.push((48 + number / 100000 % 10) as u8);
    seed.push((48 + number / 10000 % 10) as u8);
    seed.push((48 + number / 1000 % 10) as u8);
    seed.push((48 + number / 100 % 10) as u8);
    seed.push((48 + number / 10 % 10) as u8);
    seed.push((48 + number % 10) as u8);
    proof {
        assert(stamp =~= timestamp_bytes(ts as int));
        assert(seed@ =~= timestamp_bytes(ts as int) + six_digits(number as nat));
    }
    let digest = sha256(seed.as_slice());
    let r = hex_prefix(&digest, BACKUP_CODE_BYTES);
    proof {
        lemma_hex_len(digest@.take(BACKUP_CODE_BYTES as int));
    }
    r
}

pub proof fn lemma_hex_len(bytes: Seq<u8>)
    ensures
        hex_of(bytes).len() == 2 * bytes.len(),
    decreases bytes.len(),
{
    if bytes.len() > 0 {
        lemma_hex_len(bytes.drop_last());
    }
}

/// A new backup code from a random number below a million and the current
/// second.
pub fn generate_code() -> (r: String)
    ensures
        exists|ts: i64, number: u32|
            number < 1_000_000 && r@ == backup_code_of(ts as int, number as nat),
        r@.len() == 2 * BACKUP_CODE_BYTES,
{
    let number = random_below(1_000_000);
    let ts = now_unix_seconds();
    backup_code_text(ts, number)
}

} // verus!
