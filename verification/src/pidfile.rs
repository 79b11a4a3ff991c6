//! The pid file's text format: a decimal process identifier followed by a
//! line terminator. Writing renders the identifier exactly; reading trims
//! surrounding whitespace and parses the rest as a decimal number, accepting
//! an optional leading plus sign, exactly as the standard decimal parser of
//! an unsigned 32-bit integer does.

use vstd::prelude::*;

use crate::Error;

verus! {

/// ASCII whitespace: the characters that trimming the pid file's text removes.
pub open spec fn is_ws(b: u8) -> bool {
    b == 0x20 || (0x09 <= b && b <= 0x0d)
}

/// The text with its leading whitespace removed.
pub open spec fn trim_start_spec(s: Seq<u8>) -> Seq<u8>
    decreases s.len(),
{
    if s.len() > 0 && is_ws(s[0]) {
        trim_start_spec(s.drop_first())
    } else {
        s
    }
}

/// The text with its trailing whitespace removed.
pub open spec fn trim_end_spec(s: Seq<u8>) -> Seq<u8>
    decreases s.len(),
{
    if s.len() > 0 && is_ws(s.last()) {
        trim_end_spec(s.drop_last())
    } else {
        s
    }
}

/// The text with whitespace removed from both ends.
pub open spec fn trim_spec(s: Seq<u8>) -> Seq<u8> {
    trim_end_spec(trim_start_spec(s))
}

/// An ASCII decimal digit.
pub open spec fn is_digit(b: u8) -> bool {
    0x30 <= b && b <= 0x39
}

pub open spec fn all_digits(s: Seq<u8>) -> bool {
    forall|i: int| 0 <= i < s.len() ==> is_digit(s[i])
}

/// The number a string of decimal digits denotes.
pub open spec fn digits_value(s: Seq<u8>) -> nat
    decreases s.len(),
{
    if s.len() == 0 {
        0
    } else {
        digits_value(s.drop_last()) * 10 + ((s.last() - 0x30) as nat)
    }
}

/// The digits of a trimmed identifier: an optional leading plus sign is
/// accepted, as the standard decimal parser accepts it.
pub open spec fn digits_part(s: Seq<u8>) -> Seq<u8> {
    if s.len() > 0 && s[0] == 0x2b {
        s.drop_first()
    } else {
        s
    }
}

/// Whether the text, once trimmed, parses as a 32-bit process identifier.
pub open spec fn is_valid_pid_text(s: Seq<u8>) -> bool {
    let d = digits_part(trim_spec(s));
    d.len() > 0 && all_digits(d) && digits_value(d) <= u32::MAX
}

/// The identifier the text denotes, meaningful when `is_valid_pid_text` holds.
pub open spec fn pid_of_text(s: Seq<u8>) -> nat {
    digits_value(digits_part(trim_spec(s)))
}

/// The decimal rendering of a number, most significant digit first.
pub open spec fn decimal_digits(n: nat) -> Seq<u8>
    decreases n,
{
    if n < 10 {
        seq![(0x30 + n) as u8]
    } else {
        decimal_digits(n / 10).push((0x30 + n % 10) as u8)
    }
}

/// The exact contents of the pid file a holder with this identifier writes:
/// the decimal identifier and a trailing newline.
pub open spec fn pid_line(pid: u32) -> Seq<u8> {
    decimal_digits(pid as nat).push(0x0a)
}

fn is_ws_byte(b: u8) -> (r: bool)
    ensures
        r == is_ws(b),
{
    b == 0x20 || (0x09 <= b && b <= 0x0d)
}

fn push_decimal(n: u32, out: &mut Vec<u8>)
    ensures
        final(out)@ == old(out)@ + decimal_digits(n as nat),
    decreases n,
{
    if n < 10 {
        out.push(0x30 + n as u8);
        proof {
            assert(out@ =~= old(out)@ + decimal_digits(n as nat));
        }
    } else {
        push_decimal(n / 10, out);
        out.push(0x30 + (n % 10) as u8);
        proof {
            assert(out@ =~= old(out)@ + decimal_digits(n as nat));
        }
    }
}

/// Renders the pid file's contents for this process identifier.
pub fn format_pid_line(pid: u32) -> (r: Vec<u8>)
    ensures
        r@ == pid_line(pid),
{
    let mut out: Vec<u8> = Vec::new();
    push_decimal(pid, &mut out);
    out.push(0x0a);
    proof {
        assert(out@ =~= pid_line(pid));
    }
    out
}

/// A prefix of a digit string never denotes more than the whole string.
proof fn lemma_digits_value_prefix_le(s: Seq<u8>, i: int)
    requires
        0 <= i <= s.len(),
    ensures
        digits_value(s.subrange(0, i)) <= digits_value(s),
    decreases s.len() - i,
{
    if i == s.len() {
        assert(s.subrange(0, i) =~= s);
    } else {
        assert(s.subrange(0, i + 1).drop_last() =~= s.subrange(0, i));
        assert(digits_value(s.subrange(0, i)) <= digits_value(s.subrange(0, i + 1)));
        lemma_digits_value_prefix_le(s, i + 1);
    }
}

/// Parses the pid file's contents: trims whitespace, then reads a decimal
/// process identifier, accepting an optional leading plus sign. Malformed
/// contents are a [`Error::ParseInt`] error.
pub fn parse_pid(content: &[u8]) -> (r: Result<u32, Error>)
    ensures
        is_valid_pid_text(content@) ==> r == Ok::<u32, Error>(pid_of_text(content@) as u32),
        !is_valid_pid_text(content@) ==> r == Err::<u32, Error>(Error::ParseInt),
{
    let ghost s = content@;
    proof {
        assert(s.skip(0) =~= s);
    }
    let mut start: usize = 0;
    while start < content.len() && is_ws_byte(content[start])
        invariant
            start <= content.len(),
            s == content@,
            trim_start_spec(s) == trim_start_spec(s.skip(start as int)),
        decreases content.len() - start,
    {
        proof {
            assert(s.skip(start as int).drop_first() =~= s.skip(start as int + 1));
        }
        start += 1;
    }
    proof {
        assert(trim_start_spec(s) == s.skip(start as int));
    }
    let mut end: usize = content.len();
    while end > start && is_ws_byte(content[end - 1])
        invariant
            start <= end <= content.len(),
            s == content@,
            trim_start_spec(s) == s.skip(start as int),
            trim_end_spec(s.skip(start as int)) == trim_end_spec(s.subrange(start as int, end as int)),
        decreases end,
    {
        proof {
            assert(s.subrange(start as int, end as int).drop_last() =~= s.subrange(
                start as int,
                end as int - 1,
            ));
        }
        end -= 1;
    }
    let ghost t = trim_spec(s);
    proof {
        assert(t =~= s.subrange(start as int, end as int));
    }
    let mut i: usize = start;
    if i < end && content[i] == 0x2b {
        i += 1;
    }
    let ghost d = digits_part(t);
    proof {
        if t.len() > 0 && t[0] == 0x2b {
            assert(t.drop_first() =~= s.subrange(start as int + 1, end as int));
        }
        assert(d =~= s.subrange(i as int, end as int));
    }
    if i == end {
        // nothing but the sign (or nothing at all): not a number
        return Err(Error::ParseInt);
    }
    let mut acc: u32 = 0;
    let mut j: usize = i;
    while j < end
        invariant
            i <= j <= end <= content.len(),
            i < end,
            s == content@,
            d == digits_part(trim_spec(s)),
            d == s.subrange(i as int, end as int),
            all_digits(s.subrange(i as int, j as int)),
            acc as nat == digits_value(s.subrange(i as int, j as int)),
        decreases end - j,
    {
        let b: u8 = content[j];
        if b < 0x30 || b > 0x39 {
            proof {
                assert(d[j as int - i as int] == b);
                assert(!all_digits(d));
            }
            return Err(Error::ParseInt);
        }
        let dv: u32 = (b - 0x30) as u32;
        if acc > (u32::MAX - dv) / 10 {
            proof {
                let prefix = s.subrange(i as int, j as int);
                let longer = s.subrange(i as int, j as int + 1);
                assert(longer.drop_last() =~= prefix);
                assert(digits_value(longer) == digits_value(prefix) * 10 + dv);
                assert(digits_value(prefix) * 10 + dv > u32::MAX) by {
                    let q = ((u32::MAX - dv) / 10) as nat;
                    vstd::arithmetic::div_mod::lemma_fundamental_div_mod(
                        (u32::MAX - dv) as int,
                        10,
                    );
                    assert(q * 10 + 9 >= (u32::MAX - dv) as nat);
                    assert(digits_value(prefix) >= q + 1);
                    assert(digits_value(prefix) * 10 >= (q + 1) * 10) by (nonlinear_arith)
                        requires
                            digits_value(prefix) >= q + 1,
                    ;
                };
                assert(longer =~= d.subrange(0, j as int + 1 - i as int));
                lemma_digits_value_prefix_le(d, j as int + 1 - i as int);
                assert(digits_value(d) > u32::MAX);
            }
            return Err(Error::ParseInt);
        }
        proof {
            assert(s.subrange(i as int, j as int + 1).drop_last() =~= s.subrange(
                i as int,
                j as int,
            ));
            assert(acc * 10 + dv <= u32::MAX) by {
                let q = ((u32::MAX - dv) / 10) as nat;
                vstd::arithmetic::div_mod::lemma_fundamental_div_mod((u32::MAX - dv) as int, 10);
                assert(acc as nat <= q);
                assert(acc as nat * 10 <= q * 10) by (nonlinear_arith)
                    requires
                        acc as nat <= q,
                ;
            };
        }
        acc = acc * 10 + dv;
        j += 1;
    }
    proof {
        assert(s.subrange(i as int, j as int) =~= d);
        assert(is_valid_pid_text(s));
        assert(pid_of_text(s) == acc as nat);
    }
    Ok(acc)
}

/// The digits a number renders to are in fact digits.
pub proof fn lemma_decimal_digits_are_digits(n: nat)
    ensures
        decimal_digits(n).len() >= 1,
        all_digits(decimal_digits(n)),
    decreases n,
{
    if n < 10 {
    } else {
        lemma_decimal_digits_are_digits(n / 10);
        let prev = decimal_digits(n / 10);
        let whole = decimal_digits(n);
        assert(whole == prev.push((0x30 + n % 10) as u8));
        assert forall|i: int| 0 <= i < whole.len() implies is_digit(whole[i]) by {
            if i < prev.len() {
                assert(whole[i] == prev[i]);
            }
        }
    }
}

/// Rendering and then reading a number yields the number back.
pub proof fn lemma_decimal_digits_value(n: nat)
    ensures
        digits_value(decimal_digits(n)) == n,
    decreases n,
{
    if n < 10 {
        let whole = decimal_digits(n);
        assert(whole.len() == 1);
        assert(whole.drop_last() =~= Seq::<u8>::empty());
        assert(whole.last() == (0x30 + n) as u8);
        assert(((0x30 + n) as u8) as nat == 0x30 + n);
        assert(digits_value(Seq::<u8>::empty()) == 0);
        assert(digits_value(whole) == ((((0x30 + n) as u8) - 0x30) as nat));
    } else {
        lemma_decimal_digits_value(n / 10);
        let prev = decimal_digits(n / 10);
        let whole = decimal_digits(n);
        assert(whole.drop_last() =~= prev);
        assert(whole.last() == (0x30 + n % 10) as u8);
        assert(((0x30 + n % 10) as u8) as nat == 0x30 + n % 10);
        assert(digits_value(whole) == (n / 10) * 10 + n % 10);
        vstd::arithmetic::div_mod::lemma_fundamental_div_mod(n as int, 10);
    }
}

/// What a holder writes is exactly what a reader parses back: the pid file's
/// round trip, for every process identifier.
pub proof fn lemma_pid_line_round_trip(pid: u32)
    ensures
        is_valid_pid_text(pid_line(pid)),
        pid_of_text(pid_line(pid)) == pid as nat,
{
    let digits = decimal_digits(pid as nat);
    let line = pid_line(pid);
    lemma_decimal_digits_are_digits(pid as nat);
    lemma_decimal_digits_value(pid as nat);
    assert(is_digit(line[0]));
    assert(!is_ws(line[0]));
    assert(trim_start_spec(line) == line);
    assert(line.drop_last() =~= digits);
    assert(is_ws(line.last()));
    assert(trim_end_spec(line) == trim_end_spec(digits));
    assert(is_digit(digits.last()));
    assert(trim_end_spec(digits) == digits);
    assert(trim_spec(line) == digits);
    assert(is_digit(digits[0]));
    assert(digits[0] != 0x2b);
    assert(digits_part(digits) == digits);
}

} // verus!

