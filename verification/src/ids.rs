use vstd::prelude::*;

verus! {

/// A character of the Crockford base-32 alphabet that ULIDs are written in.
pub open spec fn is_crockford_char(c: char) -> bool {
    ('0' <= c && c <= '9') || ('A' <= c && c <= 'Z' && c != 'I' && c != 'L' && c != 'O' && c
        != 'U')
}

/// The text form of a ULID: 26 Crockford base-32 characters.
pub open spec fn is_ulid_text(s: Seq<char>) -> bool {
    &&& s.len() == 26
    &&& forall|i: int| 0 <= i < s.len() ==> is_crockford_char(#[trigger] s[i])
}

/// A lowercase hexadecimal digit.
pub open spec fn is_lower_hex(c: char) -> bool {
    ('0' <= c && c <= '9') || ('a' <= c && c <= 'f')
}

/// Positions of the hyphens in the hyphenated text form of a UUID.
pub open spec fn is_uuid_hyphen_position(i: int) -> bool {
    i == 8 || i == 13 || i == 18 || i == 23
}

/// The hyphenated lowercase text form of a version 7, RFC 4122 variant UUID.
pub open spec fn is_uuid_v7_text(s: Seq<char>) -> bool {
    &&& s.len() == 36
    &&& forall|i: int|
        0 <= i < s.len() ==> (if is_uuid_hyphen_position(i) {
            #[trigger] s[i] == '-'
        } else {
            is_lower_hex(s[i])
        })
    &&& s[14] == '7'
    &&& (s[19] == '8' || s[19] == '9' || s[19] == 'a' || s[19] == 'b')
}

/// The Crockford base-32 alphabet, in digit order.
pub open spec fn crockford_alphabet() -> Seq<char> {
    "0123456789ABCDEFGHJKMNPQRSTVWXYZ"@
}

/// The text form of the ULID with value `v`: 26 base-32 digits, most
/// significant first.
pub open spec fn ulid_text_of(v: u128) -> Seq<char> {
    Seq::new(26, |i: int| crockford_alphabet()[((v >> ((5 * (25 - i)) as u128)) & 0x1f) as int])
}

/// Lowercase hexadecimal digits, in digit order.
pub open spec fn lower_hex_alphabet() -> Seq<char> {
    "0123456789abcdef"@
}

/// Which of the 32 hex digits of a UUID stands at position `i` of its
/// hyphenated text.
pub open spec fn uuid_digit_index(i: int) -> int {
    if i < 8 {
        i
    } else if i < 13 {
        i - 1
    } else if i < 18 {
        i - 2
    } else if i < 23 {
        i - 3
    } else {
        i - 4
    }
}

/// Hex digit `k` (most significant first) of the UUID with value `v`.
pub open spec fn uuid_nibble(v: u128, k: int) -> int {
    ((v >> ((4 * (31 - k)) as u128)) & 0xf) as int
}

/// The hyphenated lowercase text of the UUID with value `v`.
pub open spec fn uuid_text_of(v: u128) -> Seq<char> {
    Seq::new(
        36,
        |i: int|
            if is_uuid_hyphen_position(i) {
                '-'
            } else {
                lower_hex_alphabet()[uuid_nibble(v, uuid_digit_index(i))]
            },
    )
}

/// The value of a version 7 UUID of the RFC 4122 variant: version nibble 7,
/// variant bits `10`.
pub open spec fn is_uuid_v7_value(v: u128) -> bool {
    &&& (v >> 76u128) & 0xf == 7
    &&& (v >> 62u128) & 0x3 == 2
}

/// The value of a fresh ULID: calls `ulid::Ulid::new` (current time and
/// random bits) and takes its `u128` field. Nothing is claimed of the value.
#[verifier::external_body]
fn ulid_now() -> (v: u128) {
    ulid::Ulid::new().0
}

/// The text of a ULID: calls `Ulid::to_string` on `Ulid(v)`. Claimed: the 26
/// base-32 digits of `v`, most significant first, in the Crockford alphabet
/// (as `ulid::base32::encode` writes them).
#[verifier::external_body]
fn ulid_text(v: u128) -> (text: String)
    ensures
        text@ == ulid_text_of(v),
{
    ulid::Ulid(v).to_string()
}

/// The value of a fresh version 7 UUID: calls `uuid::Uuid::now_v7` (current
/// time and random bits) and reads it with `as_u128`. Claimed: the version
/// nibble is 7 and the variant bits are `10` (RFC 4122), as that crate
/// documents for these UUIDs; the rest of the value is left open.
#[verifier::external_body]
fn uuid_now_v7() -> (v: u128)
    ensures
        is_uuid_v7_value(v),
{
    uuid::Uuid::now_v7().as_u128()
}

/// The text of a UUID: calls `Uuid::from_u128(v)` and its `Display` impl.
/// Claimed: the hyphenated lowercase hex form of `v` (8-4-4-4-12 digits,
/// most significant first).
#[verifier::external_body]
fn uuid_text(v: u128) -> (text: String)
    ensures
        text@ == uuid_text_of(v),
{
    uuid::Uuid::from_u128(v).to_string()
}

proof fn lemma_ulid_text_is_crockford(v: u128)
    ensures
        is_ulid_text(ulid_text_of(v)),
{
    reveal_strlit("0123456789ABCDEFGHJKMNPQRSTVWXYZ");
    let alpha = crockford_alphabet();
    assert(alpha.len() == 32);
    assert forall|d: int| 0 <= d < 32 implies is_crockford_char(#[trigger] alpha[d]) by {
        assert(alpha =~= seq![
            '0', '1', '2', '3', '4', '5', '6', '7', '8', '9', 'A', 'B', 'C', 'D', 'E', 'F',
            'G', 'H', 'J', 'K', 'M', 'N', 'P', 'Q', 'R', 'S', 'T', 'V', 'W', 'X', 'Y', 'Z',
        ]);
    }
    assert forall|i: int| 0 <= i < 26 implies is_crockford_char(#[trigger] ulid_text_of(v)[i]) by {
        let shift = (5 * (25 - i)) as u128;
        let d = (v >> shift) & 0x1f;
        assert(d < 32) by (bit_vector)
            requires
                d == (v >> shift) & 0x1f,
        ;
        assert(alpha[d as int] == ulid_text_of(v)[i]);
    }
}

proof fn lemma_uuid_text_is_v7(v: u128)
    requires
        is_uuid_v7_value(v),
    ensures
        is_uuid_v7_text(uuid_text_of(v)),
{
    reveal_strlit("0123456789abcdef");
    let hex = lower_hex_alphabet();
    assert(hex =~= seq![
        '0', '1', '2', '3', '4', '5', '6', '7', '8', '9', 'a', 'b', 'c', 'd', 'e', 'f',
    ]);
    let t = uuid_text_of(v);
    assert forall|i: int| 0 <= i < t.len() implies (if is_uuid_hyphen_position(i) {
        #[trigger] t[i] == '-'
    } else {
        is_lower_hex(t[i])
    }) by {
        if !is_uuid_hyphen_position(i) {
            let shift = (4 * (31 - uuid_digit_index(i))) as u128;
            let n = (v >> shift) & 0xf;
            assert(n < 16) by (bit_vector)
                requires
                    n == (v >> shift) & 0xf,
            ;
            assert(t[i] == hex[n as int]);
        }
    }
    let n14 = (v >> 76u128) & 0xf;
    assert(t[14] == hex[n14 as int]);
    let n19 = (v >> 60u128) & 0xf;
    assert(8 <= n19 < 12) by (bit_vector)
        requires
            n19 == (v >> 60u128) & 0xf,
            (v >> 62u128) & 0x3 == 2,
    ;
    assert(t[19] == hex[n19 as int]);
}

/// A fresh message id: the text of a new ULID.
pub(crate) fn new_message_id() -> (id: String)
    ensures
        is_ulid_text(id@),
        exists|v: u128| id@ == ulid_text_of(v),
{
    let v = ulid_now();
    proof {
        lemma_ulid_text_is_crockford(v);
    }
    ulid_text(v)
}

/// A fresh correlation id: the text of a new version 7 UUID.
pub(crate) fn new_correlation_id() -> (id: String)
    ensures
        is_uuid_v7_text(id@),
        exists|v: u128| is_uuid_v7_value(v) && id@ == uuid_text_of(v),
{
    let v = uuid_now_v7();
    proof {
        lemma_uuid_text_is_v7(v);
    }
    uuid_text(v)
}

} // verus!
