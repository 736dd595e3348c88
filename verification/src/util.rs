//! Small string and decimal helpers shared by the front-end.

use vstd::prelude::*;

verus! {

/// Equality of an owned string against a borrowed one, by view.
pub fn string_eq_str(a: &String, b: &str) -> (r: bool)
    ensures
        r == (a@ == b@),
{
    let owned: String = b.to_owned();
    *a == owned
}

/// Equality of two borrowed strings, by view.
pub fn str_eq(a: &str, b: &str) -> (r: bool)
    ensures
        r == (a@ == b@),
{
    let oa: String = a.to_owned();
    let ob: String = b.to_owned();
    oa == ob
}

/// Equality of two owned strings, by view.
pub fn string_eq(a: &String, b: &String) -> (r: bool)
    ensures
        r == (a@ == b@),
{
    *a == *b
}

/// Whether `c` is a decimal digit.
pub open spec fn is_dec_digit(c: char) -> bool {
    '0' <= c <= '9'
}

/// The value of a decimal digit.
pub open spec fn digit_of(c: char) -> u64 {
    (c as u64 - '0' as u64) as u64
}

/// The digit character for a value below ten.
pub open spec fn char_of_digit(v: u64) -> char {
    if v == 0 {
        '0'
    } else if v == 1 {
        '1'
    } else if v == 2 {
        '2'
    } else if v == 3 {
        '3'
    } else if v == 4 {
        '4'
    } else if v == 5 {
        '5'
    } else if v == 6 {
        '6'
    } else if v == 7 {
        '7'
    } else if v == 8 {
        '8'
    } else {
        '9'
    }
}

/// Reading a digit sequence left to right onto an accumulator, exactly as
/// bounded arithmetic does: a non-digit or an overflow of `u64` yields
/// `None`.
pub open spec fn parse_dec_loop(s: Seq<char>, acc: u64) -> Option<u64>
    decreases s.len(),
{
    if s.len() == 0 {
        Some(acc)
    } else if !is_dec_digit(s[0]) {
        None
    } else if acc as nat * 10 + digit_of(s[0]) as nat > u64::MAX as nat {
        None
    } else {
        parse_dec_loop(s.drop_first(), (acc * 10 + digit_of(s[0])) as u64)
    }
}

/// The value of a non-empty, all-digit sequence that fits in `u64`.
pub open spec fn parse_dec(s: Seq<char>) -> Option<u64> {
    if s.len() == 0 {
        None
    } else {
        parse_dec_loop(s, 0)
    }
}

/// Reads a decimal number from a string.  Yields `None` for an empty
/// string, a non-digit character, or a value that does not fit in `u64`.
pub fn str_parse_u64(s: &str) -> (r: Option<u64>)
    ensures
        r == parse_dec(s@),
{
    let n = s.unicode_len();
    if n == 0 {
        return None;
    }
    let mut acc: u64 = 0;
    let mut i: usize = 0;
    proof {
        assert(s@.skip(0) =~= s@);
    }
    while i < n
        invariant
            n == s@.len(),
            0 <= i <= n,
            parse_dec_loop(s@, 0) == parse_dec_loop(s@.skip(i as int), acc),
        decreases n - i,
    {
        let c = s.get_char(i);
        if c < '0' || c > '9' {
            proof {
                assert(s@.skip(i as int)[0] == c);
            }
            return None;
        }
        let d: u64 = (c as u32 as u64) - ('0' as u32 as u64);
        proof {
            assert(s@.skip(i as int)[0] == c);
            assert(d == digit_of(c));
        }
        if acc > (u64::MAX - d) / 10 {
            proof {
                assert(acc as nat * 10 + d as nat > u64::MAX as nat) by (nonlinear_arith)
                    requires
                        acc as nat > ((u64::MAX - d) / 10) as nat,
                        d < 10,
                ;
            }
            return None;
        }
        proof {
            assert(acc as nat * 10 + d as nat <= u64::MAX as nat) by (nonlinear_arith)
                requires
                    acc as nat <= ((u64::MAX - d) / 10) as nat,
                    d < 10,
            ;
            assert(s@.skip(i as int).drop_first() =~= s@.skip(i as int + 1));
        }
        acc = acc * 10 + d;
        i = i + 1;
    }
    proof {
        assert(s@.skip(n as int).len() == 0);
    }
    Some(acc)
}

/// The decimal rendering of a value.
pub open spec fn dec_str(v: u64) -> Seq<char>
    decreases v,
{
    if v < 10 {
        seq![char_of_digit(v)]
    } else {
        dec_str(v / 10).push(char_of_digit(v % 10))
    }
}

/// The digit string of a value below ten.
fn digit_string(v: u64) -> (r: String)
    requires
        v < 10,
    ensures
        r@ == seq![char_of_digit(v)],
{
    let s: &str = if v == 0 {
        "0"
    } else if v == 1 {
        "1"
    } else if v == 2 {
        "2"
    } else if v == 3 {
        "3"
    } else if v == 4 {
        "4"
    } else if v == 5 {
        "5"
    } else if v == 6 {
        "6"
    } else if v == 7 {
        "7"
    } else if v == 8 {
        "8"
    } else {
        "9"
    };
    proof {
        reveal_strlit("0");
        reveal_strlit("1");
        reveal_strlit("2");
        reveal_strlit("3");
        reveal_strlit("4");
        reveal_strlit("5");
        reveal_strlit("6");
        reveal_strlit("7");
        reveal_strlit("8");
        reveal_strlit("9");
    }
    let r = s.to_owned();
    proof {
        assert(r@ =~= seq![char_of_digit(v)]);
    }
    r
}

/// Renders a value in decimal.
pub fn u64_to_string(v: u64) -> (r: String)
    ensures
        r@ == dec_str(v),
    decreases v,
{
    if v < 10 {
        digit_string(v)
    } else {
        let high = u64_to_string(v / 10);
        let low = digit_string(v % 10);
        let r = high.concat(low.as_str());
        proof {
            assert(r@ =~= dec_str(v));
        }
        r
    }
}

/// A digit character reads back as its digit.
proof fn lemma_digit_char(v: u64)
    requires
        v < 10,
    ensures
        is_dec_digit(char_of_digit(v)),
        digit_of(char_of_digit(v)) == v,
{
}

/// Appending a digit multiplies the parsed value by ten and adds it.
proof fn lemma_parse_loop_push(s: Seq<char>, c: char, acc: u64)
    requires
        is_dec_digit(c),
    ensures
        parse_dec_loop(s.push(c), acc) == (match parse_dec_loop(s, acc) {
            None => None::<u64>,
            Some(x) => if x as nat * 10 + digit_of(c) as nat > u64::MAX as nat {
                None::<u64>
            } else {
                Some((x * 10 + digit_of(c)) as u64)
            },
        }),
    decreases s.len(),
{
    reveal_with_fuel(parse_dec_loop, 3);
    if s.len() == 0 {
        assert(s.push(c).len() == 1);
        assert(s.push(c)[0] == c);
        assert(s.push(c).drop_first() =~= Seq::<char>::empty());
    } else {
        assert(s.push(c)[0] == s[0]);
        if is_dec_digit(s[0]) && !(acc as nat * 10 + digit_of(s[0]) as nat > u64::MAX as nat) {
            assert(s.push(c).drop_first() =~= s.drop_first().push(c));
            lemma_parse_loop_push(s.drop_first(), c, (acc * 10 + digit_of(s[0])) as u64);
        }
    }
}

/// Rendering a value in decimal and reading it back yields the value.
pub proof fn lemma_dec_roundtrip(v: u64)
    ensures
        parse_dec(dec_str(v)) == Some(v),
    decreases v,
{
    reveal_with_fuel(parse_dec_loop, 3);
    if v < 10 {
        lemma_digit_char(v);
        let s = dec_str(v);
        assert(s.len() == 1);
        assert(s[0] == char_of_digit(v));
        assert(s.drop_first() =~= Seq::<char>::empty());
    } else {
        lemma_dec_roundtrip(v / 10);
        lemma_digit_char(v % 10);
        assert((v / 10) * 10 + v % 10 == v) by (nonlinear_arith);
        lemma_parse_loop_push(dec_str(v / 10), char_of_digit(v % 10), 0);
    }
}

} // verus!

