//! Identifiers: the long form that names one record, and the short form that
//! ties together the records of one logical event.
//!
//! Both are drawn from a random 128-bit number whose version and variant bits
//! are those of a version 4 UUID. The long form is the canonical hyphenated
//! text of that number, the short form is its base62 numeral.

use vstd::prelude::*;

verus! {

// ---------------------------------------------------------------------------
// The 128-bit number
// ---------------------------------------------------------------------------

/// The bits that a version 4 UUID fixes: the version nibble and the two
/// variant bits.
pub open spec fn v4_mask() -> u128 {
    0x0000_0000_0000_f000_c000_0000_0000_0000u128
}

/// What the fixed bits hold: version 4, variant `10`.
pub open spec fn v4_marks() -> u128 {
    0x0000_0000_0000_4000_8000_0000_0000_0000u128
}

/// `bits` is laid out as a version 4 UUID.
pub open spec fn is_v4_bits(bits: u128) -> bool {
    bits & v4_mask() == v4_marks()
}

// ---------------------------------------------------------------------------
// The long form
// ---------------------------------------------------------------------------

/// Length of the long form: 32 hexadecimal digits and 4 hyphens.
pub const LOG_ID_LEN: usize = 36;

/// The lower-case hexadecimal digit for `d`, where `0 <= d < 16`.
pub open spec fn hex_digit(d: int) -> char {
    if d < 10 {
        ('0' as int + d) as char
    } else {
        ('a' as int + (d - 10)) as char
    }
}

/// `c` is a lower-case hexadecimal digit.
pub open spec fn is_hex_digit(c: char) -> bool {
    ('0' <= c && c <= '9') || ('a' <= c && c <= 'f')
}

/// Position `p` of the long form holds a hyphen.
pub open spec fn is_hyphen_position(p: int) -> bool {
    p == 8 || p == 13 || p == 18 || p == 23
}

/// The nibble, counted from the most significant one, that position `p` of
/// the long form shows.
pub open spec fn nibble_index(p: int) -> int {
    if p < 8 {
        p
    } else if p < 13 {
        p - 1
    } else if p < 18 {
        p - 2
    } else if p < 23 {
        p - 3
    } else {
        p - 4
    }
}

/// Nibble `k` of `bits`, counted from the most significant one.
pub open spec fn nibble(bits: u128, k: int) -> int {
    ((bits as int) / pow16(31 - k)) % 16
}

/// 16 to the power `e`.
pub open spec fn pow16(e: int) -> int
    decreases e,
{
    if e <= 0 {
        1
    } else {
        16 * pow16(e - 1)
    }
}

/// The character at position `p` of the long form of `bits`.
pub open spec fn hyphenated_char(bits: u128, p: int) -> char {
    if is_hyphen_position(p) {
        '-'
    } else {
        hex_digit(nibble(bits, nibble_index(p)))
    }
}

/// The long form of `bits`: its 32 hexadecimal digits, most significant
/// first, in groups of 8, 4, 4, 4 and 12 with a hyphen between groups.
pub open spec fn hyphenated_text(bits: u128) -> Seq<char> {
    Seq::new(LOG_ID_LEN as nat, |p: int| hyphenated_char(bits, p))
}

/// `s` has the shape `xxxxxxxx-xxxx-4xxx-yxxx-xxxxxxxxxxxx`, where each `x`
/// is a lower-case hexadecimal digit and `y` is one of `8`, `9`, `a`, `b`.
pub open spec fn is_log_id(s: Seq<char>) -> bool {
    &&& s.len() == LOG_ID_LEN
    &&& forall|p: int|
        0 <= p < LOG_ID_LEN ==> if is_hyphen_position(p) {
            #[trigger] s[p] == '-'
        } else {
            is_hex_digit(s[p])
        }
    &&& s[14] == '4'
    &&& (s[19] == '8' || s[19] == '9' || s[19] == 'a' || s[19] == 'b')
}

// ---------------------------------------------------------------------------
// The short form
// ---------------------------------------------------------------------------

/// The base62 digit for `d`, where `0 <= d < 62`: `0` to `9`, then `A` to
/// `Z`, then `a` to `z`.
pub open spec fn base62_digit(d: int) -> char {
    if d < 10 {
        ('0' as int + d) as char
    } else if d < 36 {
        ('A' as int + (d - 10)) as char
    } else {
        ('a' as int + (d - 36)) as char
    }
}

/// `c` belongs to the base62 alphabet.
pub open spec fn is_base62_char(c: char) -> bool {
    ('0' <= c && c <= '9') || ('A' <= c && c <= 'Z') || ('a' <= c && c <= 'z')
}

/// Every character of `s` belongs to the base62 alphabet.
pub open spec fn is_base62_text(s: Seq<char>) -> bool {
    forall|i: int| 0 <= i < s.len() ==> is_base62_char(#[trigger] s[i])
}

/// The base62 numeral of `n`, most significant digit first, without leading
/// zeros; the numeral of zero is `0`.
pub open spec fn base62_text(n: nat) -> Seq<char>
    decreases n,
{
    if n < 62 {
        seq![base62_digit(n as int)]
    } else {
        base62_text(n / 62).push(base62_digit((n % 62) as int))
    }
}

/// The most digits that the base62 numeral of a 128-bit number has.
pub const EVENT_ID_MAX_LEN: usize = 22;

/// 62 to the power `e`.
pub open spec fn pow62(e: nat) -> nat
    decreases e,
{
    if e == 0 {
        1
    } else {
        62 * pow62((e - 1) as nat)
    }
}

// ---------------------------------------------------------------------------
// Trusted: the calls into `uuid` and `base62`
// ---------------------------------------------------------------------------

/// Calls `uuid::Uuid::new_v4` and reads the result as a number with
/// `Uuid::as_u128`. Trusted: whatever the random source gave, `new_v4` has
/// overwritten the version nibble with 4 and the variant bits with `10`.
#[verifier::external_body]
fn random_v4_bits() -> (bits: u128)
    ensures
        is_v4_bits(bits),
{
    uuid::Uuid::new_v4().as_u128()
}

/// Calls `uuid::Uuid::from_u128` and the `Display` of the result. Trusted:
/// the text is the lower-case hyphenated form of the sixteen bytes of `bits`,
/// most significant first.
#[verifier::external_body]
fn uuid_text(bits: u128) -> (text: String)
    ensures
        text@ == hyphenated_text(bits),
{
    uuid::Uuid::from_u128(bits).to_string()
}

/// Calls `base62::encode`. Trusted: the text is the numeral of `n` in the
/// standard digit order, with as many digits as `n` needs and one for zero.
#[verifier::external_body]
fn base62_encode(n: u128) -> (text: String)
    ensures
        text@ == base62_text(n as nat),
{
    base62::encode(n)
}

// ---------------------------------------------------------------------------
// Lemmas
// ---------------------------------------------------------------------------

proof fn lemma_hex_digit(d: int)
    requires
        0 <= d < 16,
    ensures
        is_hex_digit(hex_digit(d)),
        d == 4 ==> hex_digit(d) == '4',
        d == 8 ==> hex_digit(d) == '8',
        d == 9 ==> hex_digit(d) == '9',
        d == 10 ==> hex_digit(d) == 'a',
        d == 11 ==> hex_digit(d) == 'b',
{
}

proof fn lemma_v4_nibbles(bits: u128)
    requires
        is_v4_bits(bits),
    ensures
        nibble(bits, 12) == 4,
        8 <= nibble(bits, 16) <= 11,
{
    reveal_with_fuel(pow16, 20);
    assert(pow16(19) == 0x1000_0000_0000_0000_0000int);
    assert(pow16(15) == 0x1000_0000_0000_0000int);
    assert(bits & 0x0000_0000_0000_f000_c000_0000_0000_0000u128
        == 0x0000_0000_0000_4000_8000_0000_0000_0000u128 ==> (bits
        / 0x1000_0000_0000_0000_0000u128) % 16 == 4 && 8 <= (bits / 0x1000_0000_0000_0000u128) % 16
        <= 11) by (bit_vector);
}

/// The long form of a number laid out as a version 4 UUID has the canonical
/// shape: 36 characters, hyphens after the groups of 8, 4, 4 and 4 digits,
/// lower-case hexadecimal digits elsewhere, `4` as the version digit and one
/// of `8`, `9`, `a`, `b` as the variant digit.
pub proof fn lemma_v4_text_is_log_id(bits: u128)
    requires
        is_v4_bits(bits),
    ensures
        is_log_id(hyphenated_text(bits)),
{
    let s = hyphenated_text(bits);
    assert forall|p: int| 0 <= p < LOG_ID_LEN implies if is_hyphen_position(p) {
        #[trigger] s[p] == '-'
    } else {
        is_hex_digit(s[p])
    } by {
        if !is_hyphen_position(p) {
            lemma_hex_digit(nibble(bits, nibble_index(p)));
        }
    }
    lemma_v4_nibbles(bits);
    lemma_hex_digit(nibble(bits, 12));
    lemma_hex_digit(nibble(bits, 16));
}

proof fn lemma_pow16_positive(e: int)
    ensures
        pow16(e) > 0,
    decreases e,
{
    if e > 0 {
        lemma_pow16_positive(e - 1);
    }
}

proof fn lemma_leading_nibbles(a: u128, b: u128, k: int)
    requires
        0 <= k <= 32,
        forall|j: int| 0 <= j < k ==> nibble(a, j) == nibble(b, j),
    ensures
        (a as int) / pow16(32 - k) == (b as int) / pow16(32 - k),
    decreases k,
{
    if k == 0 {
        reveal_with_fuel(pow16, 33);
        assert(pow16(32) == 0x1_0000_0000_0000_0000_0000_0000_0000_0000int);
    } else {
        lemma_leading_nibbles(a, b, k - 1);
        let p = pow16(32 - k);
        lemma_pow16_positive(32 - k);
        assert(pow16(32 - (k - 1)) == 16 * p);
        assert(p * 16 == 16 * p);
        vstd::arithmetic::div_mod::lemma_div_denominator(a as int, p, 16);
        vstd::arithmetic::div_mod::lemma_div_denominator(b as int, p, 16);
        vstd::arithmetic::div_mod::lemma_fundamental_div_mod((a as int) / p, 16);
        vstd::arithmetic::div_mod::lemma_fundamental_div_mod((b as int) / p, 16);
        assert(nibble(a, k - 1) == nibble(b, k - 1));
    }
}

/// Where nibble `k` stands in the long form.
pub open spec fn nibble_position(k: int) -> int {
    if k < 8 {
        k
    } else if k < 12 {
        k + 1
    } else if k < 16 {
        k + 2
    } else if k < 20 {
        k + 3
    } else {
        k + 4
    }
}

/// Different numbers have different long forms: two records whose
/// identifiers come from different draws never share an identifier.
pub proof fn lemma_log_ids_differ(a: u128, b: u128)
    requires
        a != b,
    ensures
        hyphenated_text(a) != hyphenated_text(b),
{
    if hyphenated_text(a) == hyphenated_text(b) {
        assert forall|j: int| 0 <= j < 32 implies nibble(a, j) == nibble(b, j) by {
            let p = nibble_position(j);
            assert(nibble_index(p) == j && !is_hyphen_position(p));
            assert(hyphenated_text(a)[p] == hyphenated_char(a, p));
            assert(hyphenated_text(b)[p] == hyphenated_char(b, p));
            lemma_hex_digit(nibble(a, j));
            lemma_hex_digit(nibble(b, j));
        }
        lemma_leading_nibbles(a, b, 32);
        assert(pow16(0) == 1);
    }
}

/// Every base62 numeral is made of base62 characters and has at least one.
pub proof fn lemma_base62_text_alphabet(n: nat)
    ensures
        is_base62_text(base62_text(n)),
        base62_text(n).len() >= 1,
    decreases n,
{
    if n >= 62 {
        lemma_base62_text_alphabet(n / 62);
    }
}

/// A number below 62 to the power `k` has a numeral of at most `k` digits.
pub proof fn lemma_base62_text_len(n: nat, k: nat)
    requires
        k >= 1,
        n < pow62(k),
    ensures
        base62_text(n).len() <= k,
    decreases k,
{
    if n >= 62 {
        reveal_with_fuel(pow62, 2);
        if k >= 2 {
            lemma_base62_text_len(n / 62, (k - 1) as nat);
        }
    }
}

/// The numeral of a 128-bit number has at most 22 digits, so it is strictly
/// shorter than the long form.
pub proof fn lemma_event_id_is_short(bits: u128)
    ensures
        base62_text(bits as nat).len() <= EVENT_ID_MAX_LEN,
        base62_text(bits as nat).len() < LOG_ID_LEN,
{
    reveal_with_fuel(pow62, 23);
    assert(pow62(22) > u128::MAX);
    lemma_base62_text_len(bits as nat, 22);
}

// ---------------------------------------------------------------------------
// The generators
// ---------------------------------------------------------------------------

/// The long form of `bits`.
pub fn format_log_id(bits: u128) -> (id: String)
    ensures
        id@ == hyphenated_text(bits),
        is_v4_bits(bits) ==> is_log_id(id@),
{
    proof {
        if is_v4_bits(bits) {
            lemma_v4_text_is_log_id(bits);
        }
    }
    uuid_text(bits)
}

/// The short form of `bits`.
pub fn format_event_id(bits: u128) -> (id: String)
    ensures
        id@ == base62_text(bits as nat),
        is_base62_text(id@),
        1 <= id@.len() <= EVENT_ID_MAX_LEN,
{
    proof {
        lemma_base62_text_alphabet(bits as nat);
        lemma_event_id_is_short(bits);
    }
    base62_encode(bits)
}

/// A fresh identifier for one record: the long form of a random version 4
/// number. The call reads the system's random source and panics where that
/// source fails.
pub fn generate_log_id() -> (id: String)
    ensures
        is_log_id(id@),
        exists|bits: u128| is_v4_bits(bits) && id@ == #[trigger] hyphenated_text(bits),
{
    let bits = random_v4_bits();
    format_log_id(bits)
}

/// A fresh correlation identifier: the short form of a random version 4
/// number. It is made of base62 characters and is strictly shorter than a
/// record identifier. The call reads the system's random source and panics
/// where that source fails.
pub fn generate_event_id() -> (id: String)
    ensures
        is_base62_text(id@),
        1 <= id@.len() <= EVENT_ID_MAX_LEN,
        id@.len() < LOG_ID_LEN,
        exists|bits: u128| is_v4_bits(bits) && id@ == #[trigger] base62_text(bits as nat),
{
    let bits = random_v4_bits();
    format_event_id(bits)
}

} // verus!
