//! The format-template renderer.
//!
//! A template is rendered by substituting its slots: `{}` takes the next
//! argument in order, `{i}` takes the argument at position `i`, and `{{` /
//! `}}` stand for literal braces.  A malformed template, a slot index with no
//! argument, or more sequential slots than arguments yields no result.

use vstd::prelude::*;
use crate::util::{is_dec_digit, parse_dec, dec_str};

verus! {

/// The first position at or after `i` that does not hold a digit.
pub open spec fn s_digit_span(t: Seq<char>, i: int) -> int
    decreases t.len() - i,
{
    if i < t.len() && is_dec_digit(t[i]) {
        s_digit_span(t, i + 1)
    } else {
        i
    }
}

/// The digit span starts where it began and stops at the first non-digit.
pub proof fn lemma_digit_span(t: Seq<char>, i: int)
    requires
        0 <= i <= t.len(),
    ensures
        i <= s_digit_span(t, i) <= t.len(),
        forall|k: int| i <= k < s_digit_span(t, i) ==> is_dec_digit(#[trigger] t[k]),
        s_digit_span(t, i) < t.len() ==> !is_dec_digit(t[s_digit_span(t, i)]),
    decreases t.len() - i,
{
    if i < t.len() && is_dec_digit(t[i]) {
        lemma_digit_span(t, i + 1);
    }
}

/// The digit span in a suffix is the digit span in the whole, shifted.
pub proof fn lemma_digit_span_shift(t: Seq<char>, i: int, j: int)
    requires
        0 <= i,
        0 <= j,
        i + j <= t.len(),
    ensures
        s_digit_span(t.skip(i), j) == s_digit_span(t, i + j) - i,
    decreases t.len() - i - j,
{
    if i + j < t.len() && is_dec_digit(t[i + j]) {
        assert(t.skip(i)[j] == t[i + j]);
        lemma_digit_span_shift(t, i, j + 1);
    } else {
        if j < t.skip(i).len() {
            assert(t.skip(i)[j] == t[i + j]);
        }
    }
}

/// What rendering a template yields, reading slots left to right with
/// `next` as the position of the next sequential argument.
pub open spec fn s_fmt(t: Seq<char>, args: Seq<Seq<char>>, next: int) -> Option<Seq<char>>
    decreases t.len(),
    via s_fmt_decreases
{
    if t.len() == 0 {
        Some(Seq::empty())
    } else if t[0] == '{' {
        if t.len() >= 2 && t[1] == '{' {
            match s_fmt(t.skip(2), args, next) {
                None => None,
                Some(r) => Some(seq!['{'] + r),
            }
        } else {
            let e = s_digit_span(t, 1);
            if e < t.len() && t[e] == '}' {
                if e == 1 {
                    // `{}`: the next sequential argument.
                    if 0 <= next < args.len() {
                        match s_fmt(t.skip(2), args, next + 1) {
                            None => None,
                            Some(r) => Some(args[next] + r),
                        }
                    } else {
                        None
                    }
                } else {
                    // `{i}`: an explicit position.
                    match parse_dec(t.subrange(1, e)) {
                        Some(idx) => if idx < args.len() {
                            match s_fmt(t.skip(e + 1), args, next) {
                                None => None,
                                Some(r) => Some(args[idx as int] + r),
                            }
                        } else {
                            None
                        },
                        None => None,
                    }
                }
            } else {
                None
            }
        }
    } else if t[0] == '}' {
        if t.len() >= 2 && t[1] == '}' {
            match s_fmt(t.skip(2), args, next) {
                None => None,
                Some(r) => Some(seq!['}'] + r),
            }
        } else {
            None
        }
    } else {
        match s_fmt(t.drop_first(), args, next) {
            None => None,
            Some(r) => Some(seq![t[0]] + r),
        }
    }
}

#[via_fn]
proof fn s_fmt_decreases(t: Seq<char>, args: Seq<Seq<char>>, next: int) {
    if t.len() > 0 {
        lemma_digit_span(t, 1);
    }
}

/// A template without braces renders as itself, whatever the arguments.
pub proof fn lemma_fmt_literal(t: Seq<char>, args: Seq<Seq<char>>, next: int)
    requires
        forall|k: int| 0 <= k < t.len() ==> (#[trigger] t[k]) != '{' && t[k] != '}',
    ensures
        s_fmt(t, args, next) == Some(t),
    decreases t.len(),
{
    if t.len() == 0 {
        assert(t =~= Seq::<char>::empty());
    } else {
        lemma_fmt_literal(t.drop_first(), args, next);
        assert(seq![t[0]] + t.drop_first() =~= t);
    }
}

/// A run of `k` sequential slots binds, in order, the `k` arguments starting
/// at `next`: the i-th slot takes the (next + i)-th argument.
pub proof fn lemma_fmt_sequential(k: nat, args: Seq<Seq<char>>, next: int)
    requires
        0 <= next,
        next + k <= args.len(),
    ensures
        s_fmt(slots(k), args, next) == Some(concat_all(args.subrange(next, next + k))),
    decreases k,
{
    if k == 0 {
        assert(slots(0) =~= Seq::<char>::empty());
        assert(args.subrange(next, next) =~= Seq::<Seq<char>>::empty());
    } else {
        lemma_fmt_sequential((k - 1) as nat, args, next + 1);
        let t = slots(k);
        assert(t[0] == '{' && t[1] == '}');
        assert(t.skip(2) =~= slots((k - 1) as nat));
        assert(s_digit_span(t, 1) == 1);
        let rest = args.subrange(next + 1, next + k);
        assert(args.subrange(next, next + k).drop_first() =~= rest);
        assert(args.subrange(next, next + k)[0] == args[next]);
        assert(args[next] + concat_all(rest) == concat_all(args.subrange(next, next + k)));
    }
}

/// A template of `k` sequential slots, `{}` repeated.
pub open spec fn slots(k: nat) -> Seq<char>
    decreases k,
{
    if k == 0 {
        Seq::empty()
    } else {
        seq!['{', '}'] + slots((k - 1) as nat)
    }
}

/// The concatenation of a sequence of strings.
pub open spec fn concat_all(xs: Seq<Seq<char>>) -> Seq<char>
    decreases xs.len(),
{
    if xs.len() == 0 {
        Seq::empty()
    } else {
        xs[0] + concat_all(xs.drop_first())
    }
}

/// Renders a template against ordered arguments.
pub fn render_format(t: &str, args: &Vec<String>) -> (r: Option<String>)
    ensures
        match r {
            Some(out) => s_fmt(t@, args.deep_view(), 0) == Some(out@),
            None => s_fmt(t@, args.deep_view(), 0) is None,
        },
{
    let full_len = t.unicode_len();
    let mut out = String::new();
    let mut i: usize = 0;
    let mut next: usize = 0;
    proof {
        assert(t@.skip(0) =~= t@);
    }
    while i < full_len
        invariant
            0 <= i <= full_len,
            full_len == t@.len(),
            0 <= next,
            match s_fmt(t@.skip(i as int), args.deep_view(), next as int) {
                Some(sfx) => s_fmt(t@, args.deep_view(), 0) == Some(out@ + sfx),
                None => s_fmt(t@, args.deep_view(), 0) is None,
            },
        decreases full_len - i,
    {
        let ghost tail = t@.skip(i as int);
        let ghost argsd = args.deep_view();
        proof {
            assert(tail[0] == t@[i as int]);
            assert(tail.drop_first() =~= t@.skip(i as int + 1));
            if i + 2 <= full_len {
                assert(tail.skip(2) =~= t@.skip(i as int + 2));
                assert(tail[1] == t@[i as int + 1]);
            }
        }
        let c = t.get_char(i);
        if c == '{' {
            if i + 1 < full_len && t.get_char(i + 1) == '{' {
                let ghost pre = out@;
                out.append("{");
                proof {
                    reveal_strlit("{");
                    if s_fmt(t@.skip(i as int + 2), argsd, next as int) is Some {
                        let sfx = s_fmt(t@.skip(i as int + 2), argsd, next as int)->Some_0;
                        assert(pre + (seq!['{'] + sfx) =~= out@ + sfx);
                    }
                }
                i = i + 2;
            } else {
                // Scan the digit run after the brace.
                let mut e: usize = i + 1;
                proof {
                    lemma_digit_span(t@, i as int + 1);
                    lemma_digit_span_shift(t@, i as int, 1);
                }
                while e < full_len && t.get_char(e) >= '0' && t.get_char(e) <= '9'
                    invariant
                        i + 1 <= e <= full_len,
                        full_len == t@.len(),
                        forall|k: int| i + 1 <= k < e ==> is_dec_digit(#[trigger] t@[k]),
                        s_digit_span(t@, i as int + 1) == s_digit_span(t@, e as int),
                    decreases full_len - e,
                {
                    e = e + 1;
                }
                proof {
                    assert(s_digit_span(t@, e as int) == e as int);
                }
                if e < full_len && t.get_char(e) == '}' {
                    if e == i + 1 {
                        // `{}`: the next sequential argument.
                        if next < args.len() {
                            let ghost pre = out@;
                            out.append(args[next].as_str());
                            proof {
                                assert(argsd[next as int] == args@[next as int]@);
                                if s_fmt(t@.skip(i as int + 2), argsd, next as int + 1) is Some {
                                    let sfx = s_fmt(
                                        t@.skip(i as int + 2),
                                        argsd,
                                        next as int + 1,
                                    )->Some_0;
                                    assert(pre + (argsd[next as int] + sfx) =~= out@ + sfx);
                                }
                            }
                            next = next + 1;
                            i = i + 2;
                        } else {
                            return None;
                        }
                    } else {
                        // `{i}`: an explicit position.
                        let digits = t.substring_char(i + 1, e);
                        proof {
                            assert(digits@ =~= t@.subrange(i as int + 1, e as int));
                            assert(tail.subrange(1, (e - i) as int) =~= t@.subrange(
                                i as int + 1,
                                e as int,
                            ));
                            assert(tail.skip((e - i) as int + 1) =~= t@.skip(e as int + 1));
                        }
                        match crate::util::str_parse_u64(digits) {
                            Some(idx) => {
                                if idx < args.len() as u64 {
                                    let iu: usize = idx as usize;
                                    let ghost pre = out@;
                                    out.append(args[iu].as_str());
                                    proof {
                                        assert(argsd[idx as int] == args@[idx as int]@);
                                        if s_fmt(t@.skip(e as int + 1), argsd, next as int)
                                            is Some {
                                            let sfx = s_fmt(
                                                t@.skip(e as int + 1),
                                                argsd,
                                                next as int,
                                            )->Some_0;
                                            assert(pre + (argsd[idx as int] + sfx) =~= out@
                                                + sfx);
                                        }
                                    }
                                    i = e + 1;
                                } else {
                                    return None;
                                }
                            },
                            None => {
                                return None;
                            },
                        }
                    }
                } else {
                    return None;
                }
            }
        } else if c == '}' {
            if i + 1 < full_len && t.get_char(i + 1) == '}' {
                let ghost pre = out@;
                out.append("}");
                proof {
                    reveal_strlit("}");
                    if s_fmt(t@.skip(i as int + 2), argsd, next as int) is Some {
                        let sfx = s_fmt(t@.skip(i as int + 2), argsd, next as int)->Some_0;
                        assert(pre + (seq!['}'] + sfx) =~= out@ + sfx);
                    }
                }
                i = i + 2;
            } else {
                return None;
            }
        } else {
            let one = t.substring_char(i, i + 1);
            let ghost pre = out@;
            out.append(one);
            proof {
                assert(one@ =~= seq![t@[i as int]]);
                if s_fmt(t@.skip(i as int + 1), argsd, next as int) is Some {
                    let sfx = s_fmt(t@.skip(i as int + 1), argsd, next as int)->Some_0;
                    assert(pre + (seq![t@[i as int]] + sfx) =~= out@ + sfx);
                }
            }
            i = i + 1;
        }
    }
    proof {
        assert(t@.skip(full_len as int) =~= Seq::<char>::empty());
        assert(out@ + Seq::<char>::empty() =~= out@);
    }
    Some(out)
}

/// Every character of a decimal rendering is a digit.
proof fn lemma_dec_str_digits(v: u64)
    ensures
        dec_str(v).len() >= 1,
        forall|k: int| 0 <= k < dec_str(v).len() ==> is_dec_digit(#[trigger] dec_str(v)[k]),
    decreases v,
{
    if v >= 10 {
        lemma_dec_str_digits(v / 10);
    }
}

/// An explicit slot `{i}` binds the argument at position `i`, whatever the
/// sequential position has reached.
pub proof fn lemma_fmt_explicit(i: u64, args: Seq<Seq<char>>, next: int)
    requires
        i < args.len(),
    ensures
        s_fmt(seq!['{'] + dec_str(i) + seq!['}'], args, next) == Some(args[i as int]),
{
    let digits = dec_str(i);
    let t = seq!['{'] + digits + seq!['}'];
    lemma_dec_str_digits(i);
    crate::util::lemma_dec_roundtrip(i);
    assert(t.len() == digits.len() + 2);
    assert(t[0] == '{');
    assert(forall|k: int| 1 <= k < t.len() - 1 ==> t[k] == #[trigger] digits[k - 1]);
    assert(t[t.len() - 1] == '}');
    assert(!is_dec_digit('{') && !is_dec_digit('}'));
    lemma_digit_span(t, 1);
    let e = s_digit_span(t, 1);
    assert(e <= t.len() - 1) by {
        if e > t.len() - 1 {
            assert(is_dec_digit(t[t.len() - 1]));
        }
    }
    assert(e >= t.len() - 1) by {
        if e < t.len() - 1 {
            assert(t[e] == digits[e - 1]);
            assert(is_dec_digit(t[e]));
        }
    }
    assert(t[1] != '{');
    assert(t.subrange(1, e) =~= digits);
    assert(e != 1);
    assert(t.skip(e + 1) =~= Seq::<char>::empty());
    assert(parse_dec(t.subrange(1, e)) == Some(i));
    assert(s_fmt(t.skip(e + 1), args, next) == Some(Seq::<char>::empty()));
    assert(args[i as int] + Seq::<char>::empty() =~= args[i as int]);
    assert(s_fmt(t, args, next) == Some(args[i as int] + Seq::<char>::empty()));
}

} // verus!

