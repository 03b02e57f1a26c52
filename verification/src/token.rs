//! Connection tokens: opaque 32-bit identifiers handed out for accepted
//! connections, rendered as 8 lowercase hexadecimal digits and parsed back.

use vstd::prelude::*;
use vstd::arithmetic::div_mod::{
    lemma_basic_div, lemma_div_denominator, lemma_div_pos_is_pos, lemma_fundamental_div_mod,
};
use crate::errors::Error;

verus! {

/// Sixteen to the power `k`: the place value of hexadecimal digits.
pub open spec fn p16(k: nat) -> int
    decreases k,
{
    if k == 0 {
        1
    } else {
        16 * p16((k - 1) as nat)
    }
}

/// Numeric value of a hexadecimal digit character; 16 marks any other
/// character.
pub open spec fn hex_digit_value(c: char) -> int {
    match c {
        '0' => 0,
        '1' => 1,
        '2' => 2,
        '3' => 3,
        '4' => 4,
        '5' => 5,
        '6' => 6,
        '7' => 7,
        '8' => 8,
        '9' => 9,
        'a' => 10,
        'b' => 11,
        'c' => 12,
        'd' => 13,
        'e' => 14,
        'f' => 15,
        'A' => 10,
        'B' => 11,
        'C' => 12,
        'D' => 13,
        'E' => 14,
        'F' => 15,
        _ => 16,
    }
}

pub open spec fn is_hex_digit(c: char) -> bool {
    hex_digit_value(c) < 16
}

/// The lowercase hexadecimal digit character for a value below 16.
pub open spec fn hex_char(d: int) -> char {
    if d == 0 {
        '0'
    } else if d == 1 {
        '1'
    } else if d == 2 {
        '2'
    } else if d == 3 {
        '3'
    } else if d == 4 {
        '4'
    } else if d == 5 {
        '5'
    } else if d == 6 {
        '6'
    } else if d == 7 {
        '7'
    } else if d == 8 {
        '8'
    } else if d == 9 {
        '9'
    } else if d == 10 {
        'a'
    } else if d == 11 {
        'b'
    } else if d == 12 {
        'c'
    } else if d == 13 {
        'd'
    } else if d == 14 {
        'e'
    } else {
        'f'
    }
}

/// The 8-character lowercase hexadecimal rendering of a 32-bit value, most
/// significant digit first.
pub open spec fn token_hex(v: u32) -> Seq<char> {
    Seq::new(8, |i: int| hex_char((v as int / p16((7 - i) as nat)) % 16))
}

/// Numeric value of a sequence of hexadecimal digit characters, most
/// significant digit first.
pub open spec fn hex_seq_value(s: Seq<char>) -> int
    decreases s.len(),
{
    if s.len() == 0 {
        0
    } else {
        16 * hex_seq_value(s.drop_last()) + hex_digit_value(s.last())
    }
}

/// A string parses as a token exactly when it is 1 to 8 hexadecimal digits.
pub open spec fn is_token_literal(s: Seq<char>) -> bool {
    &&& 1 <= s.len() <= 8
    &&& forall|i: int| 0 <= i < s.len() ==> is_hex_digit(#[trigger] s[i])
}

pub proof fn lemma_p16_pos(k: nat)
    ensures
        p16(k) >= 1,
    decreases k,
{
    if k > 0 {
        lemma_p16_pos((k - 1) as nat);
    }
}

pub proof fn lemma_p16_increases(j: nat, k: nat)
    requires
        j <= k,
    ensures
        p16(j) <= p16(k),
    decreases k,
{
    if j < k {
        lemma_p16_increases(j, (k - 1) as nat);
        lemma_p16_pos((k - 1) as nat);
    }
}

/// A sequence of hexadecimal digits has a value below its place bound.
pub proof fn lemma_hex_seq_value_bound(s: Seq<char>)
    requires
        forall|i: int| 0 <= i < s.len() ==> is_hex_digit(#[trigger] s[i]),
    ensures
        0 <= hex_seq_value(s) < p16(s.len()),
    decreases s.len(),
{
    if s.len() > 0 {
        assert(s.last() == s[s.len() - 1]);
        lemma_hex_seq_value_bound(s.drop_last());
    }
}

/// An opaque 32-bit identifier naming one registry entry, generated uniformly
/// at random on allocation; rendered as 8 lowercase hexadecimal digits,
/// compared by numeric value.
#[derive(Clone, Copy, PartialEq, Eq, Hash, Debug, Structural)]
pub struct ConnectionToken(u32);

impl ConnectionToken {
    /// The numeric identity of the token.
    pub closed spec fn spec_value(&self) -> u32 {
        self.0
    }

    /// Builds the token with a given numeric identity.
    pub fn new(v: u32) -> (t: ConnectionToken)
        ensures
            t.spec_value() == v,
    {
        ConnectionToken(v)
    }

    /// The numeric identity of the token.
    pub fn value(&self) -> (v: u32)
        ensures
            v == self.spec_value(),
    {
        self.0
    }

    /// Renders the token as exactly 8 lowercase hexadecimal digits, most
    /// significant first.
    pub fn to_hex_string(&self) -> (r: String)
        ensures
            r@ == token_hex(self.spec_value()),
    {
        let v = self.0;
        let mut s = String::new();
        let mut p: u32 = 0x10000000;
        let mut i: usize = 0;
        proof {
            assert(p16(7) == 0x10000000) by {
                reveal_with_fuel(p16, 8);
            }
        }
        while i < 8
            invariant
                i <= 8,
                s@ =~= token_hex(v).take(i as int),
                i < 8 ==> p == p16((7 - i) as nat),
            decreases 8 - i,
        {
            proof {
                lemma_p16_pos((7 - i) as nat);
            }
            let d: u32 = (v / p) % 16;
            s.append(hex_char_str(d));
            proof {
                assert(s@ =~= token_hex(v).take(i + 1));
            }
            if i < 7 {
                proof {
                    lemma_p16_pos((6 - i) as nat);
                    assert(p / 16 == p16((6 - i) as nat)) by {
                        assert(p == 16 * p16((6 - i) as nat));
                    }
                }
                p = p / 16;
            }
            i += 1;
        }
        proof {
            assert(token_hex(v).take(8) =~= token_hex(v));
        }
        s
    }

    /// Parses a string of 1 to 8 hexadecimal digits (either case) back into a
    /// token; any other string is rejected as malformed. Succeeds on exactly
    /// the strings `is_token_literal` admits, and then returns the token whose
    /// value the digits spell.
    pub fn parse(s: &str) -> (r: Result<ConnectionToken, Error>)
        ensures
            r is Ok <==> is_token_literal(s@),
            r matches Ok(t) ==> t.spec_value() as int == hex_seq_value(s@),
            r is Err ==> r == Err::<ConnectionToken, Error>(Error::MalformedToken),
    {
        let n = s.unicode_len();
        if n < 1 || n > 8 {
            return Err(Error::MalformedToken);
        }
        let mut v: u32 = 0;
        let mut i: usize = 0;
        while i < n
            invariant
                i <= n,
                n == s@.len(),
                1 <= n <= 8,
                forall|j: int| 0 <= j < i ==> is_hex_digit(#[trigger] s@[j]),
                v as int == hex_seq_value(s@.take(i as int)),
            decreases n - i,
        {
            let c = s.get_char(i);
            let d = hex_value_of(c);
            if d >= 16 {
                return Err(Error::MalformedToken);
            }
            proof {
                lemma_hex_seq_value_bound(s@.take(i as int));
                lemma_p16_increases(i as nat, 7);
                assert(p16(7) == 0x10000000) by {
                    reveal_with_fuel(p16, 8);
                }
                let t = s@.take(i + 1);
                assert(t.drop_last() =~= s@.take(i as int));
                assert(t.last() == s@[i as int]);
            }
            v = v * 16 + d;
            i += 1;
        }
        proof {
            assert(s@.take(n as int) =~= s@);
        }
        Ok(ConnectionToken(v))
    }
}

/// The one-character string holding the lowercase hexadecimal digit for a
/// value below 16.
fn hex_char_str(d: u32) -> (r: &'static str)
    requires
        d < 16,
    ensures
        r@ =~= seq![hex_char(d as int)],
{
    proof {
        reveal_strlit("0");
        reveal_strlit("1");
        reveal_strlit("2");
        reveal_strlit("3");
        reveal_strlit("4");
        reveal_strlit("5");
        reveal_strlit("6");
        reveal_strlit("7");
        reveal_strlit("8");
        reveal_strlit("9");
        reveal_strlit("a");
        reveal_strlit("b");
        reveal_strlit("c");
        reveal_strlit("d");
        reveal_strlit("e");
        reveal_strlit("f");
    }
    if d == 0 {
        "0"
    } else if d == 1 {
        "1"
    } else if d == 2 {
        "2"
    } else if d == 3 {
        "3"
    } else if d == 4 {
        "4"
    } else if d == 5 {
        "5"
    } else if d == 6 {
        "6"
    } else if d == 7 {
        "7"
    } else if d == 8 {
        "8"
    } else if d == 9 {
        "9"
    } else if d == 10 {
        "a"
    } else if d == 11 {
        "b"
    } else if d == 12 {
        "c"
    } else if d == 13 {
        "d"
    } else if d == 14 {
        "e"
    } else {
        "f"
    }
}

/// Numeric value of a hexadecimal digit character, 16 for any other
/// character.
fn hex_value_of(c: char) -> (d: u32)
    ensures
        d as int == hex_digit_value(c),
{
    match c {
        '0' => 0,
        '1' => 1,
        '2' => 2,
        '3' => 3,
        '4' => 4,
        '5' => 5,
        '6' => 6,
        '7' => 7,
        '8' => 8,
        '9' => 9,
        'a' => 10,
        'b' => 11,
        'c' => 12,
        'd' => 13,
        'e' => 14,
        'f' => 15,
        'A' => 10,
        'B' => 11,
        'C' => 12,
        'D' => 13,
        'E' => 14,
        'F' => 15,
        _ => 16,
    }
}

/// Law: the rendering of any token is a well-formed 8-digit token literal,
/// and parsing it yields a value equal to the original token's.
pub proof fn lemma_token_round_trip(t: ConnectionToken)
    ensures
        is_token_literal(token_hex(t.spec_value())),
        hex_seq_value(token_hex(t.spec_value())) == t.spec_value() as int,
{
    let v = t.spec_value();
    assert forall|i: int| 0 <= i < 8 implies is_hex_digit(#[trigger] token_hex(v)[i]) by {
        lemma_p16_pos((7 - i) as nat);
        lemma_div_pos_is_pos(v as int, p16((7 - i) as nat));
        let d = (v as int / p16((7 - i) as nat)) % 16;
        assert(0 <= d < 16);
        lemma_hex_char_value(d);
    }
    lemma_round_trip_prefix(v, 8);
    assert(token_hex(v).take(8) =~= token_hex(v));
    assert(p16(0) == 1);
}

/// `hex_char` and `hex_digit_value` are mutually inverse below 16.
proof fn lemma_hex_char_value(d: int)
    requires
        0 <= d < 16,
    ensures
        hex_digit_value(hex_char(d)) == d,
{
}

/// The first `k` digits of a token rendering spell the value shifted right by
/// the remaining places.
proof fn lemma_round_trip_prefix(v: u32, k: int)
    requires
        0 <= k <= 8,
    ensures
        hex_seq_value(token_hex(v).take(k)) == v as int / p16((8 - k) as nat),
    decreases k,
{
    if k == 0 {
        assert(p16(8) == 0x100000000) by {
            reveal_with_fuel(p16, 9);
        }
        lemma_basic_div(v as int, p16(8));
    } else {
        lemma_round_trip_prefix(v, k - 1);
        let s = token_hex(v).take(k);
        assert(s.drop_last() =~= token_hex(v).take(k - 1));
        assert(s.last() == token_hex(v)[k - 1]);
        let m = p16((9 - k) as nat);
        let m1 = p16((8 - k) as nat);
        lemma_p16_pos((8 - k) as nat);
        assert(m == 16 * m1);
        let d = (v as int / m1) % 16;
        lemma_p16_pos((9 - k) as nat);
        lemma_div_pos_is_pos(v as int, m1);
        lemma_hex_char_value(d);
        // v / m == (v / m1) / 16, and 16 * ((v / m1) / 16) + (v / m1) % 16 == v / m1
        lemma_div_denominator(v as int, m1, 16);
        assert(m1 * 16 == 16 * m1) by (nonlinear_arith);
        lemma_fundamental_div_mod(v as int / m1, 16);
    }
}

} // verus!
