//! Choosing the TCP port the local server will use.
//!
//! Preference order: a build-time-baked override, then a runtime environment
//! override, then an ephemeral port obtained by the caller from binding
//! loopback port 0. The override values arrive as the raw strings the
//! environment supplied; parsing them is part of the logic and is verified
//! here. Only the ephemeral bind itself is an outside effect: the caller
//! performs it and passes the outcome in.

use vstd::prelude::*;

verus! {

/// Decimal digits and their values.
pub open spec fn is_digit(c: char) -> bool {
    48 <= c as int <= 57
}

pub open spec fn digit_val(c: char) -> int {
    c as int - 48
}

/// The character for one decimal digit.
pub open spec fn digit_char(d: int) -> char {
    if d == 0 {
        '0'
    } else if d == 1 {
        '1'
    } else if d == 2 {
        '2'
    } else if d == 3 {
        '3'
    } else if d == 4 {
        '4'
    } else if d == 5 {
        '5'
    } else if d == 6 {
        '6'
    } else if d == 7 {
        '7'
    } else if d == 8 {
        '8'
    } else {
        '9'
    }
}

/// The usual decimal rendering of `n`: no sign, no leading zero except for
/// `n == 0` itself.
pub open spec fn dec_str(n: nat) -> Seq<char>
    decreases n,
{
    if n < 10 {
        seq![digit_char(n as int)]
    } else {
        dec_str(n / 10).push(digit_char((n % 10) as int))
    }
}

pub open spec fn all_digits(s: Seq<char>) -> bool {
    forall|i: int| 0 <= i < s.len() ==> is_digit(#[trigger] s[i])
}

/// The numeric value of a digit string, most significant digit first.
pub open spec fn dec_val(s: Seq<char>) -> int
    decreases s.len(),
{
    if s.len() == 0 {
        0
    } else {
        dec_val(s.drop_last()) * 10 + digit_val(s.last())
    }
}

/// How a 16-bit port number parses from a string: an optional leading `+`,
/// then at least one decimal digit, and a value that fits in 16 bits —
/// exactly the strings `u16` parsing accepts.
pub open spec fn parse_u16_spec(s: Seq<char>) -> Option<u16> {
    let ds = if s.len() > 0 && s[0] == '+' {
        s.drop_first()
    } else {
        s
    };
    if ds.len() == 0 || !all_digits(ds) || dec_val(ds) > u16::MAX {
        None
    } else {
        Some(dec_val(ds) as u16)
    }
}

/// A usable port override: a parseable 16-bit value naming a real port.
/// Port 0 names no port — it is the "assign me one" request — so a `0`
/// override is rejected and the resolver falls through to the next source.
pub open spec fn parse_port_spec(s: Seq<char>) -> Option<u16> {
    match parse_u16_spec(s) {
        Some(p) => if p >= 1 {
            Some(p)
        } else {
            None
        },
        None => None,
    }
}

proof fn lemma_dec_val_nonneg(s: Seq<char>)
    requires
        all_digits(s),
    ensures
        dec_val(s) >= 0,
    decreases s.len(),
{
    if s.len() > 0 {
        assert(all_digits(s.drop_last())) by {
            assert(forall|i: int|
                0 <= i < s.drop_last().len() ==> #[trigger] s.drop_last()[i] == s[i]);
        }
        lemma_dec_val_nonneg(s.drop_last());
    }
}

/// A digit string's value is at least the value of any of its prefixes.
proof fn lemma_dec_val_prefix(s: Seq<char>, k: int)
    requires
        all_digits(s),
        0 <= k <= s.len(),
    ensures
        dec_val(s) >= dec_val(s.take(k)),
    decreases s.len() - k,
{
    if k < s.len() {
        let t = s.take(k + 1);
        assert(t.drop_last() =~= s.take(k));
        assert(t.last() == s[k]);
        assert(all_digits(s.take(k))) by {
            assert(forall|i: int| 0 <= i < k ==> #[trigger] s.take(k)[i] == s[i]);
        }
        lemma_dec_val_nonneg(s.take(k));
        assert(dec_val(t) == dec_val(s.take(k)) * 10 + digit_val(s[k]));
        assert(dec_val(t) >= dec_val(s.take(k)));
        lemma_dec_val_prefix(s, k + 1);
    } else {
        assert(s.take(k) =~= s);
    }
}

/// Parses a 16-bit number the way the standard library does: an optional
/// leading `+`, then decimal digits, rejecting anything else and any value
/// above `u16::MAX`.
pub fn parse_u16(s: &str) -> (r: Option<u16>)
    ensures
        r == parse_u16_spec(s@),
{
    let len: usize = s.unicode_len();
    let plus: bool = if len > 0 {
        s.get_char(0) == '+'
    } else {
        false
    };
    let start: usize = if plus {
        1
    } else {
        0
    };
    let ghost ds: Seq<char> = if plus {
        s@.drop_first()
    } else {
        s@
    };
    proof {
        assert(ds =~= s@.subrange(start as int, len as int));
    }
    if start == len {
        return None;
    }
    let mut i: usize = start;
    let mut acc: u32 = 0;
    while i < len
        invariant
            start <= i <= len,
            len == s@.len(),
            start <= 1,
            ds == s@.subrange(start as int, len as int),
            ds == (if s@.len() > 0 && s@[0] == '+' {
                s@.drop_first()
            } else {
                s@
            }),
            ds.len() > 0,
            acc <= u16::MAX,
            all_digits(s@.subrange(start as int, i as int)),
            acc == dec_val(s@.subrange(start as int, i as int)),
        decreases len - i,
    {
        let c: char = s.get_char(i);
        let u: u32 = c as u32;
        let ghost prefix: Seq<char> = s@.subrange(start as int, i as int);
        let ghost prefix1: Seq<char> = s@.subrange(start as int, i + 1);
        proof {
            assert(prefix1.drop_last() =~= prefix);
            assert(prefix1.last() == s@[i as int]);
            assert(forall|k: int| 0 <= k < prefix.len() ==> #[trigger] prefix[k] == ds[k]);
        }
        if u < 48 || u > 57 {
            // A non-digit anywhere makes the whole string unparseable.
            proof {
                assert(ds[i - start] == s@[i as int]);
                assert(!is_digit(ds[i - start]));
            }
            return None;
        }
        acc = acc * 10 + (u - 48);
        proof {
            assert(all_digits(prefix1)) by {
                assert(forall|k: int|
                    0 <= k < prefix.len() ==> #[trigger] prefix1[k] == prefix[k]);
                assert(prefix1[prefix1.len() - 1] == s@[i as int]);
            }
            assert(acc == dec_val(prefix1));
        }
        if acc > 65535 {
            // Too large already; growing the digit string cannot shrink it.
            proof {
                if all_digits(ds) {
                    assert(prefix1 =~= ds.take(i + 1 - start));
                    lemma_dec_val_prefix(ds, i + 1 - start);
                }
            }
            return None;
        }
        i = i + 1;
    }
    proof {
        assert(s@.subrange(start as int, len as int) == ds);
        lemma_dec_val_nonneg(ds);
    }
    Some(acc as u16)
}

/// Appends one decimal digit character to a string.
fn push_digit(s: &mut String, d: u8)
    requires
        d < 10,
    ensures
        final(s)@ == old(s)@.push(digit_char(d as int)),
{
    if d == 0 {
        proof {
            reveal_strlit("0");
        }
        s.append("0");
    } else if d == 1 {
        proof {
            reveal_strlit("1");
        }
        s.append("1");
    } else if d == 2 {
        proof {
            reveal_strlit("2");
        }
        s.append("2");
    } else if d == 3 {
        proof {
            reveal_strlit("3");
        }
        s.append("3");
    } else if d == 4 {
        proof {
            reveal_strlit("4");
        }
        s.append("4");
    } else if d == 5 {
        proof {
            reveal_strlit("5");
        }
        s.append("5");
    } else if d == 6 {
        proof {
            reveal_strlit("6");
        }
        s.append("6");
    } else if d == 7 {
        proof {
            reveal_strlit("7");
        }
        s.append("7");
    } else if d == 8 {
        proof {
            reveal_strlit("8");
        }
        s.append("8");
    } else {
        proof {
            reveal_strlit("9");
        }
        s.append("9");
    }
    proof {
        assert(s@ =~= old(s)@.push(digit_char(d as int)));
    }
}

/// Renders a 16-bit number in decimal, exactly as [`dec_str`] describes it.
pub fn u16_to_dec(n: u16) -> (s: String)
    ensures
        s@ == dec_str(n as nat),
    decreases n,
{
    if n < 10 {
        let mut s = String::new();
        push_digit(&mut s, n as u8);
        proof {
            assert(s@ =~= dec_str(n as nat));
        }
        s
    } else {
        let mut s = u16_to_dec(n / 10);
        push_digit(&mut s, (n % 10) as u8);
        s
    }
}

/// Parses a port override: a 16-bit number naming a real (non-zero) port.
pub fn parse_port(s: &str) -> (r: Option<u16>)
    ensures
        r == parse_port_spec(s@),
{
    match parse_u16(s) {
        Some(p) => if p >= 1 {
            Some(p)
        } else {
            None
        },
        None => None,
    }
}

/// The view of an optional string argument.
pub open spec fn view_opt(o: Option<&str>) -> Option<Seq<char>> {
    match o {
        Some(s) => Some(s@),
        None => None,
    }
}

/// The port the configuration asks for, if any: the build-time override
/// string wins over the environment one — a present but unusable build-time
/// string falls straight through to the ephemeral port, not to the
/// environment — and the chosen string must name a real port.
pub open spec fn configured_port(
    build_override: Option<Seq<char>>,
    env_override: Option<Seq<char>>,
) -> Option<u16> {
    let chosen = if build_override is Some {
        build_override
    } else {
        env_override
    };
    match chosen {
        Some(s) => parse_port_spec(s),
        None => None,
    }
}

/// Why no port could be resolved: the ephemeral-bind fallback was needed and
/// unavailable. The caller treats this as an unrecoverable environment
/// error.
#[derive(Clone, Copy, Debug, PartialEq, Eq, Structural)]
pub enum PortError {
    EphemeralBindFailed,
}

/// Decides the local server's port. `ephemeral_port` is the outcome of the
/// caller binding loopback port 0 and reading the assigned port back —
/// `None` where that bind failed (a bind never yields port 0, so a zero here
/// is treated the same way). A configured override wins regardless of the
/// ephemeral outcome; the result always names a real port in `[1, 65535]`.
pub fn get_sidecar_port(
    build_override: Option<&str>,
    env_override: Option<&str>,
    ephemeral_port: Option<u16>,
) -> (r: Result<u16, PortError>)
    ensures
        configured_port(view_opt(build_override), view_opt(env_override)) matches Some(p) ==> r
            == Ok::<u16, PortError>(p),
        configured_port(view_opt(build_override), view_opt(env_override)) is None ==> r == (
        match ephemeral_port {
            Some(e) => if e >= 1 {
                Ok::<u16, PortError>(e)
            } else {
                Err::<u16, PortError>(PortError::EphemeralBindFailed)
            },
            None => Err::<u16, PortError>(PortError::EphemeralBindFailed),
        }),
        r matches Ok(p) ==> 1 <= p,
{
    let parsed: Option<u16> = match build_override {
        Some(s) => parse_port(s),
        None => match env_override {
            Some(s) => parse_port(s),
            None => None,
        },
    };
    match parsed {
        Some(p) => Ok(p),
        None => match ephemeral_port {
            Some(e) => if e >= 1 {
                Ok(e)
            } else {
                Err(PortError::EphemeralBindFailed)
            },
            None => Err(PortError::EphemeralBindFailed),
        },
    }
}

} // verus!
