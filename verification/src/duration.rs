//! Parsing of duration tokens such as `"5m"`, `"2h30m"` or `"90s"`.
//!
//! A token is a concatenation of digit groups each followed by a unit
//! (`h`/`m`/`s`, either case), with whitespace ignored.  An empty token,
//! digits without a trailing unit, an unknown character, and a total of zero
//! seconds are all rejected.

use vstd::prelude::*;

use crate::error::Error;

verus! {

/// A decimal digit.
pub open spec fn is_digit(c: char) -> bool {
    '0' as int <= c as int <= '9' as int
}

/// The numeric value of a decimal digit.
pub open spec fn digit_value(c: char) -> nat {
    (c as int - '0' as int) as nat
}

/// A unit suffix, case-insensitive.
pub open spec fn is_unit(c: char) -> bool {
    c == 'h' || c == 'H' || c == 'm' || c == 'M' || c == 's' || c == 'S'
}

/// Seconds denoted by one unit suffix.
pub open spec fn unit_secs(c: char) -> nat {
    if c == 'h' || c == 'H' {
        3600
    } else if c == 'm' || c == 'M' {
        60
    } else {
        1
    }
}

/// Whitespace that a token may contain anywhere: the code points with the
/// Unicode White_Space property, as `char::is_whitespace` recognises them.
pub open spec fn is_space(c: char) -> bool {
    ||| 0x09 <= c as int <= 0x0D
    ||| c as int == 0x20
    ||| c as int == 0x85
    ||| c as int == 0xA0
    ||| c as int == 0x1680
    ||| 0x2000 <= c as int <= 0x200A
    ||| c as int == 0x2028
    ||| c as int == 0x2029
    ||| c as int == 0x202F
    ||| c as int == 0x205F
    ||| c as int == 0x3000
}

fn is_space_char(c: char) -> (r: bool)
    ensures
        r == is_space(c),
{
    let code = c as u32;
    (9 <= code && code <= 13) || code == 0x20 || code == 0x85 || code == 0xA0 || code == 0x1680
        || (0x2000 <= code && code <= 0x200A) || code == 0x2028 || code == 0x2029 || code == 0x202F
        || code == 0x205F || code == 0x3000
}

/// Parse the token from position `i` on, with `total` seconds already
/// accumulated and `cur` the value of the digit group read so far (`None`
/// when no digits are pending).  `None` is an invalid token.
pub open spec fn spec_parse_from(s: Seq<char>, i: int, total: nat, cur: Option<nat>) -> Option<nat>
    decreases s.len() - i,
{
    if i < 0 || i > s.len() {
        None
    } else if i == s.len() {
        if cur is Some {
            None
        } else if total == 0 {
            None
        } else {
            Some(total)
        }
    } else {
        let c = s[i];
        if is_digit(c) {
            let base: nat = match cur {
                Option::Some(v) => v,
                Option::None => 0,
            };
            spec_parse_from(s, i + 1, total, Some(base * 10 + digit_value(c)))
        } else if is_unit(c) {
            match cur {
                Option::Some(v) => spec_parse_from(s, i + 1, total + v * unit_secs(c), None),
                Option::None => None,
            }
        } else if is_space(c) {
            spec_parse_from(s, i + 1, total, cur)
        } else {
            None
        }
    }
}

/// The seconds denoted by a duration token, or `None` for an invalid token.
pub open spec fn spec_parse_duration(s: Seq<char>) -> Option<nat> {
    spec_parse_from(s, 0, 0, None)
}

/// A successful parse never yields less than what is already accumulated,
/// pending digits included: every later unit multiplies the pending group by
/// at least one.
proof fn lemma_parse_from_lower_bound(s: Seq<char>, i: int, total: nat, cur: Option<nat>)
    requires
        0 <= i <= s.len(),
    ensures
        spec_parse_from(s, i, total, cur) matches Some(v) ==> v >= total + match cur {
            Option::Some(p) => p,
            Option::None => 0nat,
        },
    decreases s.len() - i,
{
    if i == s.len() {
    } else {
        let c = s[i];
        if is_digit(c) {
            let base: nat = match cur {
                Option::Some(v) => v,
                Option::None => 0,
            };
            lemma_parse_from_lower_bound(s, i + 1, total, Some(base * 10 + digit_value(c)));
        } else if is_unit(c) {
            match cur {
                Option::Some(v) => {
                    lemma_parse_from_lower_bound(s, i + 1, total + v * unit_secs(c), None);
                },
                Option::None => {},
            }
        } else if is_space(c) {
            lemma_parse_from_lower_bound(s, i + 1, total, cur);
        } else {
        }
    }
}

/// The `Option<nat>` that an executable pending-group value stands for.
pub open spec fn spec_pending(cur: Option<u64>) -> Option<nat> {
    match cur {
        Option::Some(v) => Some(v as nat),
        Option::None => None,
    }
}

/// What `parse_duration` promises of its result on a token with view `s`.
pub open spec fn parse_duration_post(s: Seq<char>, r: Result<u64, Error>) -> bool {
    &&& ((r is Ok) <==> (spec_parse_duration(s) matches Some(v) && v <= u64::MAX))
    &&& (r matches Ok(secs) ==> spec_parse_duration(s) == Some(secs as nat))
    &&& (r matches Err(e) ==> e is InvalidDuration)
}

/// Parse a duration token into whole seconds.
///
/// Returns `Ok` exactly when the token is valid and its value fits in `u64`;
/// every rejection is `InvalidDuration`.
pub fn parse_duration(s: &str) -> (r: Result<u64, Error>)
    ensures
        parse_duration_post(s@, r),
{
    let n = s.unicode_len();
    let mut i: usize = 0;
    let mut total: u64 = 0;
    let mut cur: Option<u64> = None;
    while i < n
        invariant
            i <= n,
            n == s@.len(),
            spec_parse_from(s@, i as int, total as nat, spec_pending(cur)) == spec_parse_duration(
                s@,
            ),
        decreases n - i,
    {
        let c = s.get_char(i);
        let code = c as u32;
        if 48 <= code && code <= 57 {
            let d: u64 = (code - 48) as u64;
            let base: u64 = match cur {
                Some(v) => v,
                None => 0,
            };
            proof {
                assert(is_digit(s@[i as int]));
                assert(d as nat == digit_value(s@[i as int]));
            }
            match base.checked_mul(10) {
                Some(m) => match m.checked_add(d) {
                    Some(next) => {
                        cur = Some(next);
                    },
                    None => {
                        proof {
                            lemma_parse_from_lower_bound(
                                s@,
                                i as int + 1,
                                total as nat,
                                Some((base * 10 + d) as nat),
                            );
                        }
                        return Err(Error::InvalidDuration);
                    },
                },
                None => {
                    proof {
                        lemma_parse_from_lower_bound(
                            s@,
                            i as int + 1,
                            total as nat,
                            Some((base * 10 + d) as nat),
                        );
                    }
                    return Err(Error::InvalidDuration);
                },
            }
        } else if c == 'h' || c == 'H' || c == 'm' || c == 'M' || c == 's' || c == 'S' {
            let mult: u64 = if c == 'h' || c == 'H' {
                3600
            } else if c == 'm' || c == 'M' {
                60
            } else {
                1
            };
            match cur {
                Some(v) => {
                    proof {
                        assert(is_unit(s@[i as int]));
                        assert(mult as nat == unit_secs(s@[i as int]));
                    }
                    match v.checked_mul(mult) {
                        Some(contribution) => match total.checked_add(contribution) {
                            Some(new_total) => {
                                total = new_total;
                                cur = None;
                            },
                            None => {
                                proof {
                                    lemma_parse_from_lower_bound(
                                        s@,
                                        i as int + 1,
                                        (total + v * mult) as nat,
                                        None,
                                    );
                                }
                                return Err(Error::InvalidDuration);
                            },
                        },
                        None => {
                            proof {
                                lemma_parse_from_lower_bound(
                                    s@,
                                    i as int + 1,
                                    (total + v * mult) as nat,
                                    None,
                                );
                            }
                            return Err(Error::InvalidDuration);
                        },
                    }
                },
                None => {
                    return Err(Error::InvalidDuration);
                },
            }
        } else if is_space_char(c) {
            proof {
                assert(is_space(s@[i as int]));
                assert(!is_digit(s@[i as int]) && !is_unit(s@[i as int]));
            }
        } else {
            proof {
                assert(!is_digit(s@[i as int]) && !is_unit(s@[i as int]) && !is_space(
                    s@[i as int],
                ));
            }
            return Err(Error::InvalidDuration);
        }
        i = i + 1;
    }
    match cur {
        Some(_) => Err(Error::InvalidDuration),
        None => {
            if total == 0 {
                Err(Error::InvalidDuration)
            } else {
                Ok(total)
            }
        },
    }
}

/// Parsing is deterministic: two parses of tokens with the same characters
/// agree on acceptance and on the parsed value; every rejection is the same
/// invalid-duration kind.
pub proof fn lemma_parse_duration_deterministic(
    s: Seq<char>,
    r1: Result<u64, Error>,
    r2: Result<u64, Error>,
)
    requires
        parse_duration_post(s, r1),
        parse_duration_post(s, r2),
    ensures
        (r1 is Ok) <==> (r2 is Ok),
        r1 matches Ok(v1) ==> (r2 matches Ok(v2) && v1 == v2),
        r1 matches Err(e1) ==> (r2 matches Err(e2) && e1 is InvalidDuration
            && e2 is InvalidDuration),
{
}

} // verus!
