//! Identifiers: UUIDs, held as their 128-bit value, and their textual form.
use vstd::prelude::*;

verus! {

/// `16^n`.
pub open spec fn pow16(n: nat) -> nat
    decreases n,
{
    if n == 0 {
        1
    } else {
        16 * pow16((n - 1) as nat)
    }
}

/// The lower case hexadecimal digit of a value below 16.
pub open spec fn hex_digit(d: nat) -> char {
    if d < 10 {
        (48 + d) as char
    } else {
        (87 + d) as char
    }
}

/// The "simple" textual form of a UUID: its 32 hexadecimal digits, most
/// significant first, in lower case and without hyphens.
pub open spec fn uuid_simple(id: u128) -> Seq<char> {
    Seq::new(32, |i: int| hex_digit(((id as nat) / pow16((31 - i) as nat)) % 16))
}

proof fn lemma_pow16_positive(n: nat)
    ensures
        pow16(n) > 0,
    decreases n,
{
    if n > 0 {
        lemma_pow16_positive((n - 1) as nat);
    }
}

proof fn lemma_hex_digit_injective(d1: nat, d2: nat)
    requires
        d1 < 16,
        d2 < 16,
        hex_digit(d1) == hex_digit(d2),
    ensures
        d1 == d2,
{
    let c1 = hex_digit(d1);
    let c2 = hex_digit(d2);
    assert(c1 as int == if d1 < 10 { 48 + d1 } else { 87 + d1 });
    assert(c2 as int == if d2 < 10 { 48 + d2 } else { 87 + d2 });
}

/// The base-16 digit of `x` at position `j` (counted from the least significant).
spec fn digit_at(x: u128, j: nat) -> int {
    (x as int / pow16(j) as int) % 16
}

/// Two values whose base-16 digits agree up from position `k` have the same
/// quotient by `16^k`.
proof fn lemma_same_digits_same_quotient(a: u128, b: u128, k: nat)
    requires
        k <= 32,
        forall|j: nat| j < 32 ==> #[trigger] digit_at(a, j) == digit_at(b, j),
    ensures
        a as int / pow16(k) as int == b as int / pow16(k) as int,
    decreases 32 - k,
{
    lemma_pow16_positive(k);
    let p = pow16(k) as int;
    if k == 32 {
        assert(pow16(32) == 0x1_0000_0000_0000_0000_0000_0000_0000_0000nat) by {
            reveal_with_fuel(pow16, 33);
        }
        vstd::arithmetic::div_mod::lemma_basic_div(a as int, p);
        vstd::arithmetic::div_mod::lemma_basic_div(b as int, p);
    } else {
        lemma_same_digits_same_quotient(a, b, k + 1);
        assert(pow16(k + 1) as int == p * 16);
        vstd::arithmetic::div_mod::lemma_div_denominator(a as int, p, 16);
        vstd::arithmetic::div_mod::lemma_div_denominator(b as int, p, 16);
        let qa = a as int / p;
        let qb = b as int / p;
        assert(qa / 16 == qb / 16);
        vstd::arithmetic::div_mod::lemma_fundamental_div_mod(qa, 16);
        vstd::arithmetic::div_mod::lemma_fundamental_div_mod(qb, 16);
        assert(digit_at(a, k) == digit_at(b, k));
        assert(qa % 16 == qb % 16);
    }
}

/// Distinct identifiers have distinct simple forms.
pub proof fn lemma_uuid_simple_injective(a: u128, b: u128)
    requires
        uuid_simple(a) == uuid_simple(b),
    ensures
        a == b,
{
    assert forall|j: nat| j < 32 implies #[trigger] digit_at(a, j) == digit_at(b, j) by {
        let i: int = 31 - j;
        assert((31 - i) as nat == j);
        let da = ((a as nat) / pow16(j)) % 16;
        let db = ((b as nat) / pow16(j)) % 16;
        assert(uuid_simple(a)[i] == hex_digit(da));
        assert(uuid_simple(b)[i] == hex_digit(db));
        lemma_hex_digit_injective(da, db);
        assert(da == digit_at(a, j));
        assert(db == digit_at(b, j));
    }
    lemma_same_digits_same_quotient(a, b, 0);
    assert(pow16(0) == 1);
}

/// Format a UUID in its simple form (`uuid::Uuid::as_simple`, then
/// `to_string`). The contract states uuid's documented simple format: the
/// 32 lower case hexadecimal digits of the big-endian value.
#[verifier::external_body]
pub(crate) fn format_uuid(id: u128) -> (r: String)
    ensures
        r@ == uuid_simple(id),
{
    uuid::Uuid::from_u128(id).as_simple().to_string()
}

/// A fresh random (version 4) UUID (`uuid::Uuid::new_v4`). Nothing is stated
/// of the value: it is random.
#[verifier::external_body]
pub(crate) fn new_uuid_v4() -> (r: u128) {
    uuid::Uuid::new_v4().as_u128()
}

} // verus!
