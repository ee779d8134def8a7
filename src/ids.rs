use vstd::prelude::*;
use vstd::arithmetic::div_mod::lemma_div_denominator;

use crate::error::{Error, ErrorKind};
use crate::text::push_char;

verus! {

/// Number of hexadecimal digits in the text form of an identifier.
pub const ID_TEXT_LEN: usize = 24;

/// Number of distinct identifiers: 16 to the power of `ID_TEXT_LEN`.
pub const ID_SPACE: u128 = 0x1_0000_0000_0000_0000_0000_0000;

/// The store's internal identifier: a 96-bit number, written outside as
/// 24 hexadecimal digits.
#[derive(Clone, Copy, Debug, PartialEq, Eq, Structural)]
pub struct ObjectId {
    pub value: u128,
}

pub open spec fn is_digit(c: char) -> bool {
    '0' <= c && c <= '9'
}

pub open spec fn is_lower_hex(c: char) -> bool {
    is_digit(c) || ('a' <= c && c <= 'f')
}

pub open spec fn is_hex(c: char) -> bool {
    is_lower_hex(c) || ('A' <= c && c <= 'F')
}

/// The value of a hexadecimal digit.
pub open spec fn hex_digit_value(c: char) -> nat {
    if is_digit(c) {
        (c as u32 - '0' as u32) as nat
    } else if 'a' <= c && c <= 'f' {
        (c as u32 - 'a' as u32 + 10) as nat
    } else {
        (c as u32 - 'A' as u32 + 10) as nat
    }
}

/// The number that a string of hexadecimal digits denotes, most significant first.
pub open spec fn hex_value(s: Seq<char>) -> nat
    decreases s.len(),
{
    if s.len() == 0 {
        0
    } else {
        hex_value(s.drop_last()) * 16 + hex_digit_value(s.last())
    }
}

pub open spec fn pow16(n: nat) -> nat
    decreases n,
{
    if n == 0 {
        1
    } else {
        16 * pow16((n - 1) as nat)
    }
}

/// The lower-case hexadecimal digit for a value below 16.
pub open spec fn lower_hex_digit(d: nat) -> char {
    seq!['0', '1', '2', '3', '4', '5', '6', '7', '8', '9', 'a', 'b', 'c', 'd', 'e', 'f'][d as int]
}

/// The last `n` hexadecimal digits of `v`, most significant first.
pub open spec fn hex_text(v: nat, n: nat) -> Seq<char>
    decreases n,
{
    if n == 0 {
        seq![]
    } else {
        hex_text(v / 16, (n - 1) as nat).push(lower_hex_digit(v % 16))
    }
}

/// The canonical text of an identifier.
pub open spec fn id_text(id: ObjectId) -> Seq<char> {
    hex_text(id.value as nat, ID_TEXT_LEN as nat)
}

/// A well-formed identifier text: exactly 24 hexadecimal digits, of either case.
pub open spec fn is_id_text(s: Seq<char>) -> bool {
    &&& s.len() == ID_TEXT_LEN
    &&& forall|i: int| 0 <= i < s.len() ==> is_hex(#[trigger] s[i])
}

/// The identifier that a well-formed text denotes.
pub open spec fn id_of_text(s: Seq<char>) -> ObjectId {
    ObjectId { value: hex_value(s) as u128 }
}

proof fn lemma_hex_value_bound(s: Seq<char>)
    requires
        forall|i: int| 0 <= i < s.len() ==> is_hex(#[trigger] s[i]),
    ensures
        hex_value(s) < pow16(s.len()),
    decreases s.len(),
{
    if s.len() > 0 {
        let t = s.drop_last();
        assert forall|i: int| 0 <= i < t.len() implies is_hex(#[trigger] t[i]) by {
            assert(t[i] == s[i]);
        }
        lemma_hex_value_bound(t);
        assert(is_hex(s[s.len() - 1]));
        assert(hex_digit_value(s.last()) < 16);
    }
}

proof fn lemma_pow16_facts()
    ensures
        pow16(23) * 16 == ID_SPACE,
        pow16(24) == ID_SPACE,
{
    reveal_with_fuel(pow16, 25);
}

proof fn lemma_pow16_mono(a: nat, b: nat)
    requires
        a <= b,
    ensures
        pow16(a) <= pow16(b),
    decreases b,
{
    if a < b {
        lemma_pow16_mono(a, (b - 1) as nat);
    }
}

fn hex_value_of_char(c: char) -> (r: Option<u8>)
    ensures
        r is Some <==> is_hex(c),
        r matches Some(d) ==> d as nat == hex_digit_value(c) && d < 16,
{
    if '0' <= c && c <= '9' {
        Some((c as u32 - '0' as u32) as u8)
    } else if 'a' <= c && c <= 'f' {
        Some((c as u32 - 'a' as u32 + 10) as u8)
    } else if 'A' <= c && c <= 'F' {
        Some((c as u32 - 'A' as u32 + 10) as u8)
    } else {
        None
    }
}

fn lower_hex_char(d: u8) -> (c: char)
    requires
        d < 16,
    ensures
        c == lower_hex_digit(d as nat),
{
    let digits: [char; 16] = ['0', '1', '2', '3', '4', '5', '6', '7', '8', '9', 'a', 'b', 'c', 'd', 'e', 'f'];
    proof {
        assert(digits@ =~= seq!['0', '1', '2', '3', '4', '5', '6', '7', '8', '9', 'a', 'b', 'c', 'd', 'e', 'f']);
    }
    digits[d as usize]
}

proof fn lemma_lower_hex_digit(d: nat)
    requires
        d < 16,
    ensures
        is_lower_hex(lower_hex_digit(d)),
        hex_digit_value(lower_hex_digit(d)) == d,
{
    let t = seq!['0', '1', '2', '3', '4', '5', '6', '7', '8', '9', 'a', 'b', 'c', 'd', 'e', 'f'];
    assert(t[0] == '0' && t[1] == '1' && t[2] == '2' && t[3] == '3');
    assert(t[4] == '4' && t[5] == '5' && t[6] == '6' && t[7] == '7');
    assert(t[8] == '8' && t[9] == '9' && t[10] == 'a' && t[11] == 'b');
    assert(t[12] == 'c' && t[13] == 'd' && t[14] == 'e' && t[15] == 'f');
}

proof fn lemma_hex_text_props(v: nat, n: nat)
    ensures
        hex_text(v, n).len() == n,
        forall|i: int| 0 <= i < n ==> is_lower_hex(#[trigger] hex_text(v, n)[i]),
        hex_value(hex_text(v, n)) == v % pow16(n),
    decreases n,
{
    if n > 0 {
        let m = (n - 1) as nat;
        lemma_hex_text_props(v / 16, m);
        let t = hex_text(v, n);
        let d = lower_hex_digit(v % 16);
        lemma_lower_hex_digit(v % 16);
        assert(t.drop_last() =~= hex_text(v / 16, m));
        assert(pow16(m) > 0) by {
            lemma_pow16_mono(0, m);
        }
        vstd::arithmetic::div_mod::lemma_mod_breakdown(v as int, 16, pow16(m) as int);
    }
}

impl ObjectId {
    /// Reads an identifier from its text form. Fails with
    /// `InvalidIdentifier` unless the text is exactly 24 hexadecimal digits.
    pub fn parse_str(s: &str) -> (r: Result<ObjectId, Error>)
        ensures
            r is Ok <==> is_id_text(s@),
            r matches Ok(id) ==> id == id_of_text(s@),
            r matches Err(e) ==> e.kind == ErrorKind::InvalidIdentifier && e.message@
            == "invalid identifier"@ && e.cause is None,
    {
        let n = s.unicode_len();
        if n != ID_TEXT_LEN {
            return Err(Error::of_kind(ErrorKind::InvalidIdentifier, "invalid identifier"));
        }
        let mut v: u128 = 0;
        let mut i: usize = 0;
        while i < n
            invariant
                n == s@.len() == ID_TEXT_LEN,
                i <= n,
                forall|j: int| 0 <= j < i ==> is_hex(#[trigger] s@[j]),
                v as nat == hex_value(s@.take(i as int)),
                v < pow16(i as nat),
            decreases n - i,
        {
            let c = s.get_char(i);
            match hex_value_of_char(c) {
                None => {
                    return Err(Error::of_kind(ErrorKind::InvalidIdentifier, "invalid identifier"));
                },
                Some(d) => {
                    proof {
                        lemma_pow16_facts();
                        lemma_pow16_mono(i as nat, 23);
                        assert(s@.take(i + 1).drop_last() =~= s@.take(i as int));
                    }
                    v = v * 16 + d as u128;
                },
            }
            i = i + 1;
        }
        assert(s@.take(n as int) =~= s@);
        Ok(ObjectId { value: v })
    }

    /// The canonical text of the identifier: 24 lower-case hexadecimal digits
    /// denoting its value modulo `ID_SPACE`.
    pub fn to_hex(&self) -> (r: String)
        ensures
            r@ == id_text(*self),
    {
        let ghost v = self.value as nat;
        let mut out = String::new();
        let mut q: u128 = ID_SPACE;
        let mut i: usize = 0;
        proof {
            lemma_pow16_facts();
        }
        while i < ID_TEXT_LEN
            invariant
                i <= ID_TEXT_LEN,
                q as nat == pow16((ID_TEXT_LEN - i) as nat),
                out@.len() == i,
                forall|j: int| 0 <= j < i ==> is_lower_hex(#[trigger] out@[j]),
                v == self.value as nat,
                out@ == hex_text(v / (q as nat), i as nat),
            decreases ID_TEXT_LEN - i,
        {
            let p = q / 16;
            proof {
                assert(pow16((ID_TEXT_LEN - i) as nat) == 16 * pow16((ID_TEXT_LEN - i - 1) as nat));
                assert(p as nat == pow16((ID_TEXT_LEN - i - 1) as nat));
                assert(p > 0) by {
                    lemma_pow16_mono(0, (ID_TEXT_LEN - i - 1) as nat);
                }
                lemma_div_denominator(v as int, p as int, 16);
                assert(p * 16 == q);
            }
            let digit: u128 = (self.value / p) % 16;
            let c = lower_hex_char(digit as u8);
            push_char(&mut out, c);
            proof {
                let d = (v / (p as nat)) % 16;
                assert(digit as nat == d);
                assert(c == lower_hex_digit(d));
                assert((v / (p as nat)) / 16 == v / (q as nat));
                assert(hex_text(v / (p as nat), (i + 1) as nat) == hex_text(
                    (v / (p as nat)) / 16,
                    i as nat,
                ).push(lower_hex_digit(d)));
            }
            q = p;
            i = i + 1;
        }
        assert(q == 1);
        assert(v / (q as nat) == v) by (nonlinear_arith)
            requires
                q == 1,
        ;
        out
    }
}

/// Reads an identifier from its text form; see `ObjectId::parse_str`.
pub fn decode(s: &str) -> (r: Result<ObjectId, Error>)
    ensures
        r is Ok <==> is_id_text(s@),
        r matches Ok(id) ==> id == id_of_text(s@),
        r matches Err(e) ==> e.kind == ErrorKind::InvalidIdentifier && e.message@
        == "invalid identifier"@ && e.cause is None,
{
    ObjectId::parse_str(s)
}

/// The text form of an identifier; see `ObjectId::to_hex`.
pub fn encode(id: ObjectId) -> (r: String)
    ensures
        r@ == id_text(id),
{
    id.to_hex()
}

/// The canonical text of an identifier is well formed, and decoding it gives
/// that identifier back.
pub proof fn lemma_decode_encode(id: ObjectId)
    requires
        id.value < ID_SPACE,
    ensures
        is_id_text(id_text(id)),
        id_of_text(id_text(id)) == id,
{
    lemma_hex_text_props(id.value as nat, ID_TEXT_LEN as nat);
    lemma_pow16_facts();
    vstd::arithmetic::div_mod::lemma_small_mod(id.value as nat, ID_SPACE as nat);
    let s = id_text(id);
    assert forall|i: int| 0 <= i < s.len() implies is_hex(#[trigger] s[i]) by {
        assert(is_lower_hex(s[i]));
    }
}

} // verus!
