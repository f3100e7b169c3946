//! Text helpers shared by the matcher and the configuration validator.

use vstd::prelude::*;
use vstd::std_specs::iter::IteratorSpec;

verus! {

broadcast use vstd::string::group_string_axioms;

/// Character-wise equality of two strings.
pub fn str_eq(a: &str, b: &str) -> (r: bool)
    ensures
        r == (a@ == b@),
{
    let mut ia = a.chars();
    let mut ib = b.chars();
    let ghost sa = a@;
    let ghost sb = b@;
    let ghost mut k: int = 0;
    loop
        invariant
            0 <= k <= sa.len(),
            k <= sb.len(),
            ia.remaining() == sa.skip(k),
            ib.remaining() == sb.skip(k),
            sa.take(k) == sb.take(k),
            ia.obeys_prophetic_iter_laws(),
            ib.obeys_prophetic_iter_laws(),
            sa == a@,
            sb == b@,
        decreases sa.len() - k,
    {
        let ca = ia.next();
        let cb = ib.next();
        match (ca, cb) {
            (None, None) => {
                assert(sa == sa.take(k));
                assert(sb == sb.take(k));
                return true;
            },
            (Some(x), Some(y)) => {
                if x != y {
                    assert(sa[k] != sb[k]);
                    return false;
                }
                proof {
                    assert(sa.take(k + 1) == sa.take(k).push(x));
                    assert(sb.take(k + 1) == sb.take(k).push(y));
                    k = k + 1;
                }
            },
            (Some(_), None) => {
                assert(sb.len() == k);
                return false;
            },
            (None, Some(_)) => {
                assert(sa.len() == k);
                return false;
            },
        }
    }
}

/// The decimal digit character of `d`.
pub open spec fn digit_char(d: int) -> char {
    (48 + d) as char
}

/// The decimal digits of `n`, most significant first, without leading
/// zeros (zero is `"0"`).
pub open spec fn digits_of(n: nat) -> Seq<char>
    decreases n,
{
    if n < 10 {
        seq![digit_char(n as int)]
    } else {
        digits_of(n / 10) + seq![digit_char((n % 10) as int)]
    }
}

/// The decimal text of `n`, with a leading `-` when negative.
pub open spec fn decimal_of(n: int) -> Seq<char> {
    if n < 0 {
        seq!['-'] + digits_of((-n) as nat)
    } else {
        digits_of(n as nat)
    }
}

fn digit_str(d: u64) -> (r: &'static str)
    requires
        d < 10,
    ensures
        r@ == seq![digit_char(d as int)],
{
    match d {
        0 => {
            proof {
                reveal_strlit("0");
            }
            "0"
        },
        1 => {
            proof {
                reveal_strlit("1");
            }
            "1"
        },
        2 => {
            proof {
                reveal_strlit("2");
            }
            "2"
        },
        3 => {
            proof {
                reveal_strlit("3");
            }
            "3"
        },
        4 => {
            proof {
                reveal_strlit("4");
            }
            "4"
        },
        5 => {
            proof {
                reveal_strlit("5");
            }
            "5"
        },
        6 => {
            proof {
                reveal_strlit("6");
            }
            "6"
        },
        7 => {
            proof {
                reveal_strlit("7");
            }
            "7"
        },
        8 => {
            proof {
                reveal_strlit("8");
            }
            "8"
        },
        _ => {
            proof {
                reveal_strlit("9");
            }
            "9"
        },
    }
}

fn push_digits(s: &mut String, v: u64)
    ensures
        final(s)@ == old(s)@ + digits_of(v as nat),
    decreases v,
{
    if v >= 10 {
        push_digits(s, v / 10);
    }
    s.append(digit_str(v % 10));
}

/// The decimal text of `n`.
pub fn decimal_string(n: i32) -> (r: String)
    ensures
        r@ == decimal_of(n as int),
{
    if n < 0 {
        let mut s = String::from_str("-");
        proof {
            reveal_strlit("-");
        }
        let m: i64 = n as i64;
        push_digits(&mut s, (-m) as u64);
        s
    } else {
        let mut s = String::new();
        push_digits(&mut s, n as u64);
        s
    }
}

/// The decimal text of an unsigned `n`.
pub fn unsigned_decimal_string(n: u64) -> (r: String)
    ensures
        r@ == digits_of(n as nat),
{
    let mut s = String::new();
    push_digits(&mut s, n);
    s
}

/// The last character of `s`, if it has one.
pub fn last_char(s: &str) -> (r: Option<char>)
    ensures
        r == if s@.len() == 0 {
            None::<char>
        } else {
            Some(s@.last())
        },
{
    let mut it = s.chars();
    let ghost seq = s@;
    let ghost mut k: int = 0;
    let mut last: Option<char> = None;
    loop
        invariant
            0 <= k <= seq.len(),
            it.remaining() == seq.skip(k),
            it.obeys_prophetic_iter_laws(),
            seq == s@,
            last == if k == 0 {
                None::<char>
            } else {
                Some(seq[k - 1])
            },
        decreases seq.len() - k,
    {
        match it.next() {
            None => {
                return last;
            },
            Some(c) => {
                last = Some(c);
                proof {
                    k = k + 1;
                }
            },
        }
    }
}

} // verus!
