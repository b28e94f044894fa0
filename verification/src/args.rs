//! Startup-argument scanning: find a `--flag=value` argument and read its
//! numeric value, exactly as the process does at startup.

use vstd::prelude::*;

verus! {

/// `p` is a prefix of `s`.
pub open spec fn is_prefix_of(p: Seq<char>, s: Seq<char>) -> bool {
    p.len() <= s.len() && s.subrange(0, p.len() as int) == p
}

/// What remains of `s` after a prefix of `p`'s length is removed.
pub open spec fn after_prefix(s: Seq<char>, p: Seq<char>) -> Seq<char> {
    s.subrange(p.len() as int, s.len() as int)
}

/// The value of the first argument that starts with `prefix`, with the
/// prefix stripped; `None` when no argument starts with it.
pub open spec fn spec_parse_arg(args: Seq<Seq<char>>, prefix: Seq<char>) -> Option<Seq<char>>
    decreases args.len(),
{
    if args.len() == 0 {
        None
    } else if is_prefix_of(prefix, args[0]) {
        Some(after_prefix(args[0], prefix))
    } else {
        spec_parse_arg(args.drop_first(), prefix)
    }
}

/// Whether `s` starts with `prefix`, compared character by character.
fn str_starts_with(s: &str, prefix: &str) -> (r: bool)
    ensures
        r == is_prefix_of(prefix@, s@),
{
    let n: usize = prefix.unicode_len();
    let m: usize = s.unicode_len();
    if n > m {
        return false;
    }
    let mut i: usize = 0;
    while i < n
        invariant
            i <= n,
            n <= m,
            n == prefix@.len(),
            m == s@.len(),
            forall|j: int| 0 <= j < i ==> s@[j] == prefix@[j],
        decreases n - i,
    {
        if s.get_char(i) != prefix.get_char(i) {
            proof {
                if is_prefix_of(prefix@, s@) {
                    assert(s@.subrange(0, n as int)[i as int] == prefix@[i as int]);
                }
            }
            return false;
        }
        i = i + 1;
    }
    proof {
        assert(s@.subrange(0, n as int) =~= prefix@);
    }
    true
}

/// Scans the arguments in order and returns the remainder of the first one
/// that starts with `prefix` (the `value` of `--flag=value`), or `None`
/// when no argument matches.
pub fn parse_arg<'a>(args: &'a Vec<String>, prefix: &str) -> (r: Option<&'a str>)
    ensures
        (match r {
            Some(s) => spec_parse_arg(args.deep_view(), prefix@) == Some(s@),
            None => spec_parse_arg(args.deep_view(), prefix@) is None,
        }),
{
    let ghost all: Seq<Seq<char>> = args.deep_view();
    let n: usize = args.len();
    let mut i: usize = 0;
    proof {
        assert(all.skip(0) =~= all);
    }
    while i < n
        invariant
            i <= n,
            n == args@.len(),
            all == args.deep_view(),
            spec_parse_arg(all, prefix@) == spec_parse_arg(all.skip(i as int), prefix@),
        decreases n - i,
    {
        let a: &String = &args[i];
        proof {
            assert(all.skip(i as int)[0] == a@);
        }
        if str_starts_with(a.as_str(), prefix) {
            let plen: usize = prefix.unicode_len();
            let alen: usize = a.as_str().unicode_len();
            let suffix: &str = a.as_str().substring_char(plen, alen);
            return Some(suffix);
        }
        proof {
            assert(all.skip(i as int).drop_first() =~= all.skip(i as int + 1));
        }
        i = i + 1;
    }
    None
}

/// `c` is an ASCII decimal digit.
pub open spec fn is_digit(c: char) -> bool {
    '0' as int <= c as int <= '9' as int
}

/// The numeric value of a digit character.
pub open spec fn digit_val(c: char) -> int {
    c as int - '0' as int
}

/// Every character of `s` is a decimal digit.
pub open spec fn all_digits(s: Seq<char>) -> bool {
    forall|i: int| 0 <= i < s.len() ==> is_digit(s[i])
}

/// The value of `s` read as a decimal numeral, most significant digit first.
pub open spec fn dec_val(s: Seq<char>) -> int
    decreases s.len(),
{
    if s.len() == 0 {
        0
    } else {
        dec_val(s.drop_last()) * 10 + digit_val(s.last())
    }
}

/// The digit portion of an unsigned numeral: an optional leading `+`
/// sign is skipped, everything else is kept.
pub open spec fn numeral_digits(s: Seq<char>) -> Seq<char> {
    if s.len() >= 1 && s[0] == '+' {
        s.drop_first()
    } else {
        s
    }
}

/// `s` is a well-formed unsigned decimal numeral: an optional leading
/// `+`, then at least one digit and nothing else.
pub open spec fn is_numeral(s: Seq<char>) -> bool {
    numeral_digits(s).len() >= 1 && all_digits(numeral_digits(s))
}

/// The number an unsigned 64-bit decimal parse yields: the numeral's
/// value when `s` is well formed and the value fits, otherwise `None`.
pub open spec fn spec_parse_u64(s: Seq<char>) -> Option<u64> {
    if is_numeral(s) && dec_val(numeral_digits(s)) <= u64::MAX {
        Some(dec_val(numeral_digits(s)) as u64)
    } else {
        None
    }
}

/// A digit string's value never shrinks as more digits are appended.
proof fn lemma_dec_val_prefix_le(s: Seq<char>, i: int, j: int)
    requires
        all_digits(s),
        0 <= i <= j <= s.len(),
    ensures
        0 <= dec_val(s.subrange(0, i)) <= dec_val(s.subrange(0, j)),
    decreases j - i,
{
    if i == j {
        lemma_dec_val_nonneg(s.subrange(0, i));
    } else {
        lemma_dec_val_prefix_le(s, i, j - 1);
        let pre = s.subrange(0, j);
        assert(pre.drop_last() =~= s.subrange(0, j - 1));
        assert(is_digit(pre.last()));
        lemma_dec_val_nonneg(s.subrange(0, j - 1));
        assert(dec_val(s.subrange(0, j - 1)) * 10 >= dec_val(s.subrange(0, j - 1))) by (nonlinear_arith)
            requires dec_val(s.subrange(0, j - 1)) >= 0;
    }
}

/// A string of digits has a non-negative value.
proof fn lemma_dec_val_nonneg(s: Seq<char>)
    requires
        all_digits(s),
    ensures
        dec_val(s) >= 0,
    decreases s.len(),
{
    if s.len() > 0 {
        assert(all_digits(s.drop_last()));
        lemma_dec_val_nonneg(s.drop_last());
        assert(is_digit(s.last()));
        assert(dec_val(s.drop_last()) * 10 >= 0) by (nonlinear_arith)
            requires dec_val(s.drop_last()) >= 0;
    }
}

/// Reads `s` as an unsigned decimal numeral (an optional `+`, then
/// digits). Returns its value when it is well formed and fits in 64
/// bits, `None` otherwise.
pub fn parse_u64(s: &str) -> (r: Option<u64>)
    ensures
        r == spec_parse_u64(s@),
{
    let len: usize = s.unicode_len();
    let start: usize = if len >= 1 && s.get_char(0) == '+' {
        1
    } else {
        0
    };
    proof {
        assert(numeral_digits(s@) =~= s@.subrange(start as int, len as int));
    }
    if len == start {
        return None;
    }
    let ghost digits: Seq<char> = numeral_digits(s@);
    let mut acc: u64 = 0;
    let mut i: usize = start;
    proof {
        assert(digits.subrange(0, 0) =~= Seq::<char>::empty());
    }
    while i < len
        invariant
            start <= i <= len,
            len == s@.len(),
            start == 0 || start == 1,
            digits == numeral_digits(s@),
            digits =~= s@.subrange(start as int, len as int),
            all_digits(digits.subrange(0, i - start)),
            acc == dec_val(digits.subrange(0, i - start)),
        decreases len - i,
    {
        let c = s.get_char(i);
        let cv: u32 = c as u32;
        proof {
            assert(digits[i - start] == s@[i as int]);
        }
        if cv < 48 || cv > 57 {
            proof {
                assert(!is_digit(s@[i as int]));
                assert(!all_digits(digits));
            }
            return None;
        }
        let d: u64 = (cv - 48) as u64;
        let ghost upto: Seq<char> = digits.subrange(0, i + 1 - start);
        proof {
            assert(upto.drop_last() =~= digits.subrange(0, i - start));
            assert(upto.last() == s@[i as int]);
            assert(d == digit_val(upto.last()));
        }
        let wide = acc.checked_mul(10);
        let next: Option<u64> = match wide {
            Some(w) => w.checked_add(d),
            None => None,
        };
        match next {
            Some(v) => {
                acc = v;
            },
            None => {
                // the numeral overflows here, so its full value cannot
                // fit either
                proof {
                    if all_digits(digits) {
                        assert(dec_val(upto) == acc * 10 + d);
                        assert(dec_val(upto) > u64::MAX);
                        lemma_dec_val_prefix_le(digits, i + 1 - start, digits.len() as int);
                        assert(digits.subrange(0, digits.len() as int) =~= digits);
                        assert(dec_val(digits) > u64::MAX);
                    }
                }
                return None;
            },
        }
        i = i + 1;
    }
    proof {
        assert(digits.subrange(0, len - start) =~= digits);
    }
    Some(acc)
}

/// The millisecond count configured by the first `--flag=value` argument
/// matching `prefix`: `None` when no argument matches or its value is
/// not a well-formed 64-bit numeral.
pub open spec fn spec_parse_duration(args: Seq<Seq<char>>, prefix: Seq<char>) -> Option<u64> {
    match spec_parse_arg(args, prefix) {
        Some(v) => spec_parse_u64(v),
        None => None,
    }
}

/// Finds the first argument starting with `prefix` and reads its value
/// as a duration in milliseconds.
pub fn parse_duration(args: &Vec<String>, prefix: &str) -> (r: Option<u64>)
    ensures
        r == spec_parse_duration(args.deep_view(), prefix@),
{
    match parse_arg(args, prefix) {
        Some(v) => parse_u64(v),
        None => None,
    }
}

} // verus!
