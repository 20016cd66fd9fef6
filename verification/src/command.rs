//! The operator command grammar: one line of input is split on spaces, the
//! first token names the command, and `break` takes one hexadecimal address
//! argument with an optional `0x` prefix.

use vstd::prelude::*;
use vstd::string::*;
use crate::HostError;

verus! {

/// One operator command, as the dispatcher understands it.
#[derive(Debug, Clone, Copy, PartialEq, Eq, Structural)]
pub enum Command {
    /// Resume the traced process and wait for its next stop or exit.
    Continue,
    /// Install a breakpoint at the given address.
    Break(u64),
    /// End the session.
    Exit,
    /// Any unrecognized command name: reported and otherwise ignored.
    Unknown,
}

/// The first index at or after `i` holding a space, or the length of `s` if
/// there is none: the end of the token that starts at `i`.
pub open spec fn token_end(s: Seq<char>, i: int) -> int
    decreases s.len() - i when i <= s.len()
{
    if i >= s.len() {
        s.len() as int
    } else if s[i] == ' ' {
        i
    } else {
        token_end(s, i + 1)
    }
}

/// The first index at or after `i` holding a non-space, or the length of `s`
/// if there is none: where the next token starts.
pub open spec fn skip_spaces(s: Seq<char>, i: int) -> int
    decreases s.len() - i when i <= s.len()
{
    if i >= s.len() {
        s.len() as int
    } else if s[i] == ' ' {
        skip_spaces(s, i + 1)
    } else {
        i
    }
}

/// A hexadecimal digit: `0-9`, `a-f` or `A-F`.
pub open spec fn is_hex_digit(c: char) -> bool {
    ('0' as u32 <= c as u32 && c as u32 <= '9' as u32)
    || ('a' as u32 <= c as u32 && c as u32 <= 'f' as u32)
    || ('A' as u32 <= c as u32 && c as u32 <= 'F' as u32)
}

/// The numeric value of a hexadecimal digit.
pub open spec fn hex_digit_value(c: char) -> u64
    recommends
        is_hex_digit(c),
{
    if '0' as u32 <= c as u32 && c as u32 <= '9' as u32 {
        (c as u32 - '0' as u32) as u64
    } else if 'a' as u32 <= c as u32 && c as u32 <= 'f' as u32 {
        (c as u32 - 'a' as u32 + 10) as u64
    } else {
        (c as u32 - 'A' as u32 + 10) as u64
    }
}

/// The numeric value of a string of hexadecimal digits, most significant
/// digit first.
pub open spec fn hex_value(s: Seq<char>) -> nat
    decreases s.len(),
{
    if s.len() == 0 {
        0
    } else {
        16 * hex_value(s.drop_last()) + hex_digit_value(s.last()) as nat
    }
}

/// `s` without a leading `0x`, if it has one.
pub open spec fn strip_0x(s: Seq<char>) -> Seq<char> {
    if s.len() >= 2 && s[0] == '0' && s[1] == 'x' {
        s.subrange(2, s.len() as int)
    } else {
        s
    }
}

/// Every character of `s` is a hexadecimal digit.
pub open spec fn all_hex_digits(s: Seq<char>) -> bool {
    forall|i: int| 0 <= i < s.len() ==> is_hex_digit(#[trigger] s[i])
}

/// A well-formed address argument: after stripping an optional `0x` prefix,
/// at least one digit remains, every character is a hexadecimal digit, and
/// the value fits in a machine word.
pub open spec fn valid_hex_addr(s: Seq<char>) -> bool {
    &&& strip_0x(s).len() > 0
    &&& all_hex_digits(strip_0x(s))
    &&& hex_value(strip_0x(s)) <= u64::MAX
}

/// The address a well-formed argument denotes.
pub open spec fn hex_addr_value(s: Seq<char>) -> nat {
    hex_value(strip_0x(s))
}

/// What one line of operator input means: the first token names the
/// command; for `break`, the second token is the address argument.  An
/// ill-formed or missing address is a parse error; an unrecognized command
/// name is the (harmless) `Unknown` command.
pub open spec fn spec_parse_command(s: Seq<char>) -> Result<Command, HostError> {
    let name = s.subrange(0, token_end(s, 0));
    if name == "continue"@ {
        Ok(Command::Continue)
    } else if name == "exit"@ {
        Ok(Command::Exit)
    } else if name == "break"@ {
        let a0 = skip_spaces(s, token_end(s, 0));
        let arg = s.subrange(a0, token_end(s, a0));
        if valid_hex_addr(arg) {
            Ok(Command::Break(hex_addr_value(arg) as u64))
        } else {
            Err(HostError::ParseError)
        }
    } else {
        Ok(Command::Unknown)
    }
}

proof fn lemma_token_end_bounds(s: Seq<char>, i: int)
    requires
        0 <= i <= s.len(),
    ensures
        i <= token_end(s, i) <= s.len(),
    decreases s.len() - i,
{
    if i < s.len() && s[i] != ' ' {
        lemma_token_end_bounds(s, i + 1);
    }
}

proof fn lemma_skip_spaces_bounds(s: Seq<char>, i: int)
    requires
        0 <= i <= s.len(),
    ensures
        i <= skip_spaces(s, i) <= s.len(),
    decreases s.len() - i,
{
    if i < s.len() && s[i] == ' ' {
        lemma_skip_spaces_bounds(s, i + 1);
    }
}

/// Extending a digit string multiplies its value by sixteen and adds the
/// new digit, so the value never decreases as the string grows.
proof fn lemma_hex_value_monotonic(t: Seq<char>, i: int, j: int)
    requires
        0 <= i <= j <= t.len(),
    ensures
        hex_value(t.subrange(0, i)) <= hex_value(t.subrange(0, j)),
    decreases j - i,
{
    if i < j {
        lemma_hex_value_monotonic(t, i, j - 1);
        assert(t.subrange(0, j).drop_last() =~= t.subrange(0, j - 1));
    }
}

/// The end of the token starting at `from` in `s`, found by a scan.
fn scan_token_end(s: &str, from: usize) -> (e: usize)
    requires
        from <= s@.len(),
    ensures
        e == token_end(s@, from as int),
        from <= e <= s@.len(),
{
    proof {
        lemma_token_end_bounds(s@, from as int);
    }
    let n: usize = s.unicode_len();
    let mut i: usize = from;
    loop
        invariant
            from <= i <= n,
            n == s@.len(),
            token_end(s@, from as int) == token_end(s@, i as int),
        ensures
            from <= i <= n,
            token_end(s@, from as int) == token_end(s@, i as int),
            i == n || s@[i as int] == ' ',
        decreases n - i,
    {
        if i == n {
            break;
        }
        let c: char = s.get_char(i);
        if c == ' ' {
            break;
        }
        i = i + 1;
    }
    i
}

/// The start of the next token at or after `from` in `s`, found by a scan.
fn scan_skip_spaces(s: &str, from: usize) -> (e: usize)
    requires
        from <= s@.len(),
    ensures
        e == skip_spaces(s@, from as int),
        from <= e <= s@.len(),
{
    proof {
        lemma_skip_spaces_bounds(s@, from as int);
    }
    let n: usize = s.unicode_len();
    let mut i: usize = from;
    loop
        invariant
            from <= i <= n,
            n == s@.len(),
            skip_spaces(s@, from as int) == skip_spaces(s@, i as int),
        ensures
            from <= i <= n,
            skip_spaces(s@, from as int) == skip_spaces(s@, i as int),
            i == n || s@[i as int] != ' ',
        decreases n - i,
    {
        if i == n {
            break;
        }
        let c: char = s.get_char(i);
        if c != ' ' {
            break;
        }
        i = i + 1;
    }
    i
}

/// Whether the characters of `s` between `from` and `to` spell exactly `w`.
fn token_eq(s: &str, from: usize, to: usize, w: &str) -> (b: bool)
    requires
        from <= to <= s@.len(),
    ensures
        b == (s@.subrange(from as int, to as int) == w@),
{
    let wn: usize = w.unicode_len();
    if to - from != wn {
        assert(s@.subrange(from as int, to as int).len() != w@.len());
        return false;
    }
    let mut k: usize = 0;
    while k < wn
        invariant
            0 <= k <= wn,
            wn == w@.len(),
            to - from == wn,
            from <= to <= s@.len(),
            forall|m: int| 0 <= m < k ==> s@[from + m] == w@[m],
        decreases wn - k,
    {
        let cs: char = s.get_char(from + k);
        let cw: char = w.get_char(k);
        if cs != cw {
            assert(s@.subrange(from as int, to as int)[k as int] == s@[from + k]);
            return false;
        }
        k = k + 1;
    }
    assert(s@.subrange(from as int, to as int) =~= w@);
    true
}

/// Parses an address argument: a hexadecimal integer with an optional `0x`
/// prefix.  Returns the address exactly when the argument is well-formed;
/// an empty argument, a non-digit character, or a value too large for a
/// machine word is a parse error.
pub fn parse_hex_address(s: &str) -> (r: Result<u64, HostError>)
    ensures
        r is Ok <==> valid_hex_addr(s@),
        r is Ok ==> r->Ok_0 == hex_addr_value(s@),
        r is Err ==> r == Err::<u64, HostError>(HostError::ParseError),
{
    let n: usize = s.unicode_len();
    let start: usize = if n >= 2 && s.get_char(0) == '0' && s.get_char(1) == 'x' {
        2
    } else {
        0
    };
    let ghost t: Seq<char> = strip_0x(s@);
    proof {
        assert(t =~= s@.subrange(start as int, n as int));
    }
    if start == n {
        return Err(HostError::ParseError);
    }
    let mut acc: u64 = 0;
    let mut i: usize = start;
    while i < n
        invariant
            start <= i <= n,
            n == s@.len(),
            t == strip_0x(s@),
            t =~= s@.subrange(start as int, n as int),
            acc == hex_value(t.subrange(0, i - start)),
            all_hex_digits(t.subrange(0, i - start)),
        decreases n - i,
    {
        let c: char = s.get_char(i);
        let u: u32 = c as u32;
        let d: u64 = if 48 <= u && u <= 57 {
            (u - 48) as u64
        } else if 97 <= u && u <= 102 {
            (u - 97 + 10) as u64
        } else if 65 <= u && u <= 70 {
            (u - 65 + 10) as u64
        } else {
            proof {
                assert(t[i - start] == s@[i as int]);
                assert(!is_hex_digit(t[i - start]));
            }
            return Err(HostError::ParseError);
        };
        proof {
            assert(t[i - start] == s@[i as int]);
            assert(is_hex_digit(c));
            assert(d == hex_digit_value(c));
            assert(t.subrange(0, i - start + 1).drop_last() =~= t.subrange(0, i - start));
            assert(t.subrange(0, i - start + 1).last() == t[i - start]);
        }
        if acc > 0x0FFF_FFFF_FFFF_FFFF {
            proof {
                lemma_hex_value_monotonic(t, i - start + 1, t.len() as int);
                assert(t.subrange(0, t.len() as int) =~= t);
                assert(hex_value(t) > u64::MAX);
            }
            return Err(HostError::ParseError);
        }
        acc = acc * 16 + d;
        i = i + 1;
    }
    proof {
        assert(t.subrange(0, t.len() as int) =~= t);
    }
    Ok(acc)
}

/// Parses one line of operator input into a command, exactly as the command
/// grammar reads it.
pub fn parse_command(line: &str) -> (r: Result<Command, HostError>)
    ensures
        r == spec_parse_command(line@),
{
    let e1: usize = scan_token_end(line, 0);
    if token_eq(line, 0, e1, "continue") {
        Ok(Command::Continue)
    } else if token_eq(line, 0, e1, "exit") {
        Ok(Command::Exit)
    } else if token_eq(line, 0, e1, "break") {
        let a0: usize = scan_skip_spaces(line, e1);
        let a1: usize = scan_token_end(line, a0);
        let arg: &str = line.substring_char(a0, a1);
        match parse_hex_address(arg) {
            Ok(v) => Ok(Command::Break(v)),
            Err(_) => Err(HostError::ParseError),
        }
    } else {
        Ok(Command::Unknown)
    }
}

} // verus!
