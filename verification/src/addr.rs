//! Listener addresses: the strict dotted-quad `a.b.c.d:port` form a
//! registration call must supply, parsed and validated before the embedding
//! program binds the socket.

use vstd::prelude::*;
use crate::errors::Error;

verus! {

/// Numeric value of a decimal digit character; 10 marks any other character.
pub open spec fn dec_digit_value(c: char) -> int {
    match c {
        '0' => 0,
        '1' => 1,
        '2' => 2,
        '3' => 3,
        '4' => 4,
        '5' => 5,
        '6' => 6,
        '7' => 7,
        '8' => 8,
        '9' => 9,
        _ => 10,
    }
}

pub open spec fn is_dec_digit(c: char) -> bool {
    dec_digit_value(c) < 10
}

/// Numeric value of a sequence of decimal digit characters, most significant
/// digit first.
pub open spec fn dec_seq_value(s: Seq<char>) -> int
    decreases s.len(),
{
    if s.len() == 0 {
        0
    } else {
        10 * dec_seq_value(s.drop_last()) + dec_digit_value(s.last())
    }
}

/// Where the run of decimal digits beginning at `from` ends: the first index
/// at or after `from` holding a non-digit, or the end of the sequence.
pub open spec fn digit_run_end(s: Seq<char>, from: int) -> int
    decreases s.len() - from,
{
    if from < 0 || from >= s.len() {
        s.len() as int
    } else if is_dec_digit(s[from]) {
        digit_run_end(s, from + 1)
    } else {
        from
    }
}

/// An address octet: one to three decimal digits spelling a value below 256,
/// with no leading zero (`0` itself is written as the single digit).
pub open spec fn is_octet_literal(s: Seq<char>) -> bool {
    &&& 1 <= s.len() <= 3
    &&& (s.len() >= 2 ==> s[0] != '0')
    &&& dec_seq_value(s) <= 255
}

/// A port: one to five decimal digits spelling a value below 65536.
pub open spec fn is_port_literal(s: Seq<char>) -> bool {
    &&& 1 <= s.len() <= 5
    &&& dec_seq_value(s) <= 65535
}

/// A listener address literal: four octets joined by `.`, then `:` and a
/// port, with nothing after the port but digits. Since no digit is a
/// separator, the separator positions below are the only possible ones.
pub open spec fn is_addr_literal(s: Seq<char>) -> bool {
    let i1 = digit_run_end(s, 0);
    let i2 = digit_run_end(s, i1 + 1);
    let i3 = digit_run_end(s, i2 + 1);
    let i4 = digit_run_end(s, i3 + 1);
    &&& i1 < s.len() && s[i1] == '.'
    &&& i2 < s.len() && s[i2] == '.'
    &&& i3 < s.len() && s[i3] == '.'
    &&& i4 < s.len() && s[i4] == ':'
    &&& digit_run_end(s, i4 + 1) == s.len()
    &&& is_octet_literal(s.subrange(0, i1))
    &&& is_octet_literal(s.subrange(i1 + 1, i2))
    &&& is_octet_literal(s.subrange(i2 + 1, i3))
    &&& is_octet_literal(s.subrange(i3 + 1, i4))
    &&& is_port_literal(s.subrange(i4 + 1, s.len() as int))
}

/// The parsed form of a listener address: the four octets of the IPv4
/// address and the port.
#[derive(Clone, Copy, PartialEq, Eq, Debug, Structural)]
pub struct ListenAddr {
    pub a: u8,
    pub b: u8,
    pub c: u8,
    pub d: u8,
    pub port: u16,
}

/// The address a literal spells.
pub open spec fn spec_parse_addr(s: Seq<char>) -> ListenAddr {
    let i1 = digit_run_end(s, 0);
    let i2 = digit_run_end(s, i1 + 1);
    let i3 = digit_run_end(s, i2 + 1);
    let i4 = digit_run_end(s, i3 + 1);
    ListenAddr {
        a: dec_seq_value(s.subrange(0, i1)) as u8,
        b: dec_seq_value(s.subrange(i1 + 1, i2)) as u8,
        c: dec_seq_value(s.subrange(i2 + 1, i3)) as u8,
        d: dec_seq_value(s.subrange(i3 + 1, i4)) as u8,
        port: dec_seq_value(s.subrange(i4 + 1, s.len() as int)) as u16,
    }
}

/// Every character of a digit run is a digit, the run does not overrun the
/// sequence, and the character ending it (if any) is not a digit.
proof fn lemma_digit_run_end(s: Seq<char>, from: int)
    requires
        0 <= from <= s.len(),
    ensures
        from <= digit_run_end(s, from) <= s.len(),
        forall|j: int| from <= j < digit_run_end(s, from) ==> is_dec_digit(#[trigger] s[j]),
        digit_run_end(s, from) < s.len() ==> !is_dec_digit(s[digit_run_end(s, from)]),
    decreases s.len() - from,
{
    if from < s.len() && is_dec_digit(s[from]) {
        lemma_digit_run_end(s, from + 1);
    }
}

/// A run of decimal digits has a value below its place bound: fewer than
/// `n` digits spell less than `10 ^ n`.
proof fn lemma_dec_seq_value_bound(s: Seq<char>, bound: int, limit: int)
    requires
        s.len() <= bound,
        limit >= pow10(bound as nat),
        forall|i: int| 0 <= i < s.len() ==> is_dec_digit(#[trigger] s[i]),
    ensures
        0 <= dec_seq_value(s) < limit,
    decreases s.len(),
{
    lemma_pow10_increases(s.len() as nat, bound as nat);
    lemma_dec_value_small(s);
}

/// Ten to the power `k`.
pub open spec fn pow10(k: nat) -> int
    decreases k,
{
    if k == 0 {
        1
    } else {
        10 * pow10((k - 1) as nat)
    }
}

proof fn lemma_pow10_pos(k: nat)
    ensures
        pow10(k) >= 1,
    decreases k,
{
    if k > 0 {
        lemma_pow10_pos((k - 1) as nat);
    }
}

proof fn lemma_pow10_increases(j: nat, k: nat)
    requires
        j <= k,
    ensures
        pow10(j) <= pow10(k),
    decreases k,
{
    if j < k {
        lemma_pow10_increases(j, (k - 1) as nat);
        lemma_pow10_pos((k - 1) as nat);
    }
}

proof fn lemma_dec_value_small(s: Seq<char>)
    requires
        forall|i: int| 0 <= i < s.len() ==> is_dec_digit(#[trigger] s[i]),
    ensures
        0 <= dec_seq_value(s) < pow10(s.len()),
    decreases s.len(),
{
    if s.len() > 0 {
        assert(s.last() == s[s.len() - 1]);
        lemma_dec_value_small(s.drop_last());
    }
}

/// Finds where the run of decimal digits starting at `from` ends.
fn find_digit_run_end(s: &str, from: usize, n: usize) -> (e: usize)
    requires
        from <= n,
        n == s@.len(),
    ensures
        e == digit_run_end(s@, from as int),
        from <= e <= n,
    decreases n - from,
{
    if from == n {
        return n;
    }
    let c = s.get_char(from);
    if dec_value_of(c) >= 10 {
        from
    } else {
        find_digit_run_end(s, from + 1, n)
    }
}

/// Numeric value of a decimal digit character, 10 for any other character.
fn dec_value_of(c: char) -> (d: u32)
    ensures
        d as int == dec_digit_value(c),
{
    match c {
        '0' => 0,
        '1' => 1,
        '2' => 2,
        '3' => 3,
        '4' => 4,
        '5' => 5,
        '6' => 6,
        '7' => 7,
        '8' => 8,
        '9' => 9,
        _ => 10,
    }
}

/// Reads the decimal value of `s[from..to]`, known to be all digits and at
/// most five of them.
fn read_dec_segment(s: &str, from: usize, to: usize) -> (v: u32)
    requires
        from <= to <= s@.len(),
        to - from <= 5,
        forall|j: int| from <= j < to ==> is_dec_digit(#[trigger] s@[j]),
    ensures
        v as int == dec_seq_value(s@.subrange(from as int, to as int)),
{
    let mut v: u32 = 0;
    let mut i: usize = from;
    proof {
        assert(s@.subrange(from as int, from as int) =~= Seq::<char>::empty());
    }
    while i < to
        invariant
            from <= i <= to,
            to <= s@.len(),
            to - from <= 5,
            forall|j: int| from <= j < to ==> is_dec_digit(#[trigger] s@[j]),
            v as int == dec_seq_value(s@.subrange(from as int, i as int)),
        decreases to - i,
    {
        let c = s.get_char(i);
        let d = dec_value_of(c);
        proof {
            assert(pow10(5) == 100000) by {
                reveal_with_fuel(pow10, 6);
            }
            let part = s@.subrange(from as int, i as int);
            lemma_dec_seq_value_bound(part, 5, 100000);
            let next = s@.subrange(from as int, i + 1);
            assert(next.drop_last() =~= part);
            assert(next.last() == s@[i as int]);
        }
        v = v * 10 + d;
        i += 1;
    }
    v
}

/// Parses a strict dotted-quad listener address `a.b.c.d:port`, with each
/// octet at most 255 and without a leading zero, and the port at most 65535,
/// all in decimal. Succeeds on exactly the strings `is_addr_literal` admits
/// and then returns the address the literal spells; anything else is an
/// invalid-address error (the embedding program may still accept other
/// forms, such as IPv6 addresses, at its own edge).
pub fn parse_addr(s: &str) -> (r: Result<ListenAddr, Error>)
    ensures
        r is Ok <==> is_addr_literal(s@),
        r matches Ok(a) ==> a == spec_parse_addr(s@),
        r is Err ==> r == Err::<ListenAddr, Error>(Error::InvalidAddress),
{
    let n = s.unicode_len();
    let i1 = find_digit_run_end(s, 0, n);
    if i1 >= n || s.get_char(i1) != '.' {
        return Err(Error::InvalidAddress);
    }
    let i2 = find_digit_run_end(s, i1 + 1, n);
    if i2 >= n || s.get_char(i2) != '.' {
        return Err(Error::InvalidAddress);
    }
    let i3 = find_digit_run_end(s, i2 + 1, n);
    if i3 >= n || s.get_char(i3) != '.' {
        return Err(Error::InvalidAddress);
    }
    let i4 = find_digit_run_end(s, i3 + 1, n);
    if i4 >= n || s.get_char(i4) != ':' {
        return Err(Error::InvalidAddress);
    }
    if find_digit_run_end(s, i4 + 1, n) < n {
        return Err(Error::InvalidAddress);
    }
    proof {
        lemma_digit_run_end(s@, 0);
        lemma_digit_run_end(s@, i1 + 1);
        lemma_digit_run_end(s@, i2 + 1);
        lemma_digit_run_end(s@, i3 + 1);
        lemma_digit_run_end(s@, i4 + 1);
    }
    let a = match read_octet(s, 0, i1) {
        Some(v) => v,
        None => {
            return Err(Error::InvalidAddress);
        },
    };
    let b = match read_octet(s, i1 + 1, i2) {
        Some(v) => v,
        None => {
            return Err(Error::InvalidAddress);
        },
    };
    let c = match read_octet(s, i2 + 1, i3) {
        Some(v) => v,
        None => {
            return Err(Error::InvalidAddress);
        },
    };
    let d = match read_octet(s, i3 + 1, i4) {
        Some(v) => v,
        None => {
            return Err(Error::InvalidAddress);
        },
    };
    let port_len = n - (i4 + 1);
    if port_len < 1 || port_len > 5 {
        return Err(Error::InvalidAddress);
    }
    let port32 = read_dec_segment(s, i4 + 1, n);
    if port32 > 65535 {
        return Err(Error::InvalidAddress);
    }
    Ok(ListenAddr { a, b, c, d, port: port32 as u16 })
}

/// Reads `s[from..to]` as an address octet: one to three digits spelling at
/// most 255.
fn read_octet(s: &str, from: usize, to: usize) -> (r: Option<u8>)
    requires
        from <= to <= s@.len(),
        forall|j: int| from <= j < to ==> is_dec_digit(#[trigger] s@[j]),
    ensures
        r is Some <==> is_octet_literal(s@.subrange(from as int, to as int)),
        r matches Some(v) ==> v as int == dec_seq_value(s@.subrange(from as int, to as int)),
{
    let len = to - from;
    if len < 1 || len > 3 {
        return None;
    }
    if len >= 2 && s.get_char(from) == '0' {
        return None;
    }
    let v = read_dec_segment(s, from, to);
    if v > 255 {
        None
    } else {
        Some(v as u8)
    }
}

} // verus!
