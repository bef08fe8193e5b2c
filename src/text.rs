//! Textual forms shared by the identifiers and the error messages, and the
//! calls into `uuid` and std that produce or read them.
use vstd::arithmetic::div_mod::{lemma_breakdown, lemma_small_mod};
use vstd::arithmetic::power::{lemma_pow_positive, pow};
use vstd::prelude::*;

verus! {

/// The lowercase hexadecimal digit for `d < 16`.
pub open spec fn hex_char(d: nat) -> char {
    if d < 10 {
        ((d + 48) as u8) as char
    } else {
        ((d + 87) as u8) as char
    }
}

/// The `n` lowest hexadecimal digits of `v`, most significant first.
pub open spec fn hex_digits(v: nat, n: nat) -> Seq<char>
    decreases n,
{
    if n == 0 {
        Seq::empty()
    } else {
        hex_digits(v / 16, (n - 1) as nat).push(hex_char(v % 16))
    }
}

/// The canonical text of a UUID: 32 lowercase hex digits in groups of
/// 8-4-4-4-12 joined by hyphens.
pub open spec fn uuid_text(v: u128) -> Seq<char> {
    let d = hex_digits(v as nat, 32);
    d.subrange(0, 8) + seq!['-'] + d.subrange(8, 12) + seq!['-'] + d.subrange(12, 16) + seq!['-']
        + d.subrange(16, 20) + seq!['-'] + d.subrange(20, 32)
}

proof fn lemma_hex_digits_len(v: nat, n: nat)
    ensures
        hex_digits(v, n).len() == n,
    decreases n,
{
    if n > 0 {
        lemma_hex_digits_len(v / 16, (n - 1) as nat);
    }
}

/// Equal digit strings of length `n` come from numbers equal modulo `16^n`.
proof fn lemma_hex_digits_determine(a: nat, b: nat, n: nat)
    requires
        hex_digits(a, n) == hex_digits(b, n),
    ensures
        a % (pow(16, n) as nat) == b % (pow(16, n) as nat),
    decreases n,
{
    reveal_with_fuel(pow, 1);
    if n > 0 {
        let m = (n - 1) as nat;
        let da = hex_digits(a, n);
        assert(da.drop_last() =~= hex_digits(a / 16, m));
        assert(hex_digits(b, n).drop_last() =~= hex_digits(b / 16, m));
        assert(da.last() == hex_char(a % 16));
        assert(a % 16 == b % 16);
        lemma_hex_digits_determine(a / 16, b / 16, m);
        lemma_pow_positive(16, m);
        lemma_breakdown(a as int, 16, pow(16, m));
        lemma_breakdown(b as int, 16, pow(16, m));
    }
}

/// Distinct UUIDs have distinct canonical texts.
pub proof fn lemma_uuid_text_injective(a: u128, b: u128)
    requires
        uuid_text(a) == uuid_text(b),
    ensures
        a == b,
{
    let t = uuid_text(a);
    lemma_hex_digits_len(a as nat, 32);
    lemma_hex_digits_len(b as nat, 32);
    assert(hex_digits(a as nat, 32) =~= t.subrange(0, 8) + t.subrange(9, 13) + t.subrange(14, 18)
        + t.subrange(19, 23) + t.subrange(24, 36));
    assert(hex_digits(b as nat, 32) =~= t.subrange(0, 8) + t.subrange(9, 13) + t.subrange(14, 18)
        + t.subrange(19, 23) + t.subrange(24, 36));
    lemma_hex_digits_determine(a as nat, b as nat, 32);
    reveal_with_fuel(pow, 33);
    assert(pow(16, 32) == 0x1_0000_0000_0000_0000_0000_0000_0000_0000);
    lemma_small_mod(a as nat, pow(16, 32) as nat);
    lemma_small_mod(b as nat, pow(16, 32) as nat);
}

/// The decimal digit for `d < 10`.
pub open spec fn decimal_char(d: nat) -> char {
    ((d + 48) as u8) as char
}

/// Decimal digits of `n`, without leading zeros.
pub open spec fn nat_text(n: nat) -> Seq<char>
    decreases n,
{
    if n < 10 {
        seq![decimal_char(n)]
    } else {
        nat_text(n / 10).push(decimal_char(n % 10))
    }
}

/// Decimal text of an integer, with a leading `-` when it is negative.
pub open spec fn decimal_text(n: int) -> Seq<char> {
    if n < 0 {
        seq!['-'] + nat_text((-n) as nat)
    } else {
        nat_text(n as nat)
    }
}

/// `s` is the canonical text of some UUID.
pub open spec fn is_uuid_text(s: Seq<char>) -> bool {
    exists|v: u128| uuid_text(v) == s
}

/// The lengths of the forms `uuid` reads: simple, hyphenated, braced, URN.
pub open spec fn uuid_length(n: nat) -> bool {
    n == 32 || n == 36 || n == 38 || n == 45
}

/// What `uuid::Uuid::parse_str` makes of a text: the UUID's 128 bits, or the
/// text of its diagnostic.
pub uninterp spec fn uuid_parse_outcome(s: Seq<char>) -> Result<u128, Seq<char>>;

/// Relies on `uuid::Uuid::parse_str` (and `Uuid::as_u128`, `Error`'s
/// `Display`): the outcome depends on the text alone, the canonical text of a
/// UUID reads back as that UUID, and only texts of the four forms' lengths
/// are read at all (a non-ASCII text is refused whatever its length).
#[verifier::external_body]
pub(crate) fn parse_uuid(s: &str) -> (r: Result<u128, String>)
    ensures
        r is Ok ==> uuid_parse_outcome(s@) == Ok::<u128, Seq<char>>(r->Ok_0),
        r is Err ==> uuid_parse_outcome(s@) == Err::<u128, Seq<char>>(r->Err_0@),
        is_uuid_text(s@) ==> r is Ok && uuid_text(r->Ok_0) == s@,
        !uuid_length(s@.len()) ==> r is Err,

{
    uuid::Uuid::parse_str(s).map(|u| u.as_u128()).map_err(|e| e.to_string())
}

/// Relies on `uuid::Uuid::from_u128` and `Uuid`'s `Display`, which writes the
/// hyphenated lowercase form.
#[verifier::external_body]
pub(crate) fn format_uuid(v: u128) -> (r: String)
    ensures
        r@ == uuid_text(v),
{
    uuid::Uuid::from_u128(v).to_string()
}

/// Relies on `i128`'s `Display` (through `ToString`): decimal digits, with a
/// leading minus sign for a negative number.
#[verifier::external_body]
pub(crate) fn decimal(n: i128) -> (r: String)
    ensures
        r@ == decimal_text(n as int),
{
    n.to_string()
}

/// Relies on `str::starts_with` with a `&str` pattern.
#[verifier::external_body]
pub(crate) fn has_prefix(s: &str, p: &str) -> (r: bool)
    ensures
        r == p@.is_prefix_of(s@),
{
    s.starts_with(p)
}

} // verus!
