use vstd::prelude::*;

use crate::duration::{Duration, NANOS_PER_SEC};

verus! {

/// The character of a decimal digit.
pub open spec fn digit_char(d: nat) -> char {
    if d == 0 {
        '0'
    } else if d == 1 {
        '1'
    } else if d == 2 {
        '2'
    } else if d == 3 {
        '3'
    } else if d == 4 {
        '4'
    } else if d == 5 {
        '5'
    } else if d == 6 {
        '6'
    } else if d == 7 {
        '7'
    } else if d == 8 {
        '8'
    } else {
        '9'
    }
}

/// The decimal digits of `n`, without leading zeros.
pub open spec fn decimal(n: nat) -> Seq<char>
    decreases n,
{
    if n < 10 {
        seq![digit_char(n)]
    } else {
        decimal(n / 10).push(digit_char(n % 10))
    }
}

/// The decimal digits of `n`, padded with a zero to at least two digits.
pub open spec fn two_digits(n: nat) -> Seq<char> {
    if n < 10 {
        seq!['0', digit_char(n)]
    } else {
        decimal(n)
    }
}

/// Whole seconds of a time given in nanoseconds.
pub open spec fn whole_secs(nanos: nat) -> nat {
    nanos / NANOS_PER_SEC as nat
}

/// Tenths of seconds, rounded down.
pub open spec fn whole_tenths(nanos: nat) -> nat {
    whole_secs(nanos) * 10 + (nanos % NANOS_PER_SEC as nat) / 100_000_000
}

/// Seconds, rounded up.
pub open spec fn ceil_secs(nanos: nat) -> nat {
    if nanos % NANOS_PER_SEC as nat > 0 {
        whole_secs(nanos) + 1
    } else {
        whole_secs(nanos)
    }
}

/// Tenths of seconds, rounded up.
pub open spec fn ceil_tenths(nanos: nat) -> nat {
    if (nanos % NANOS_PER_SEC as nat) % 100_000_000 > 0 {
        whole_tenths(nanos) + 1
    } else {
        whole_tenths(nanos)
    }
}

/// How a countdown shows a time of `nanos` nanoseconds: `M:SS` (or `Ss`
/// without minutes) above nine seconds, `S.Ds` below, rounded up to the
/// precision shown.
pub open spec fn countdown_text(nanos: nat, show_minutes: bool) -> Seq<char> {
    let tenths = ceil_tenths(nanos);
    let secs = ceil_secs(nanos);
    if tenths > 90 {
        if show_minutes {
            decimal(secs / 60) + seq![':'] + two_digits(secs % 60)
        } else {
            decimal(secs) + seq!['s']
        }
    } else {
        decimal(tenths / 10) + seq!['.'] + decimal(tenths % 10) + seq!['s']
    }
}

/// Whether the counts of tenths of seconds for `nanos` fit in a `u64`.
pub open spec fn countdown_fits(nanos: nat) -> bool {
    &&& whole_tenths(nanos) <= u64::MAX
    &&& (nanos % NANOS_PER_SEC as nat) % 100_000_000 > 0 ==> whole_tenths(nanos) + 1 <= u64::MAX
}

/// The counts shown are the time rounded up: the seconds and the tenths of
/// seconds are the smallest that cover `nanos`.
pub proof fn lemma_countdown_rounds_up(nanos: nat)
    ensures
        ceil_secs(nanos) * 1_000_000_000 >= nanos,
        ceil_secs(nanos) * 1_000_000_000 < nanos + 1_000_000_000,
        ceil_tenths(nanos) * 100_000_000 >= nanos,
        ceil_tenths(nanos) * 100_000_000 < nanos + 100_000_000,
{
    let q = nanos / 1_000_000_000;
    let r = nanos % 1_000_000_000;
    vstd::arithmetic::div_mod::lemma_fundamental_div_mod(nanos as int, 1_000_000_000);
    vstd::arithmetic::div_mod::lemma_fundamental_div_mod(r as int, 100_000_000);
    assert(whole_tenths(nanos) * 100_000_000 == q * 1_000_000_000 + (r / 100_000_000)
        * 100_000_000) by (nonlinear_arith)
        requires
            whole_tenths(nanos) == q * 10 + r / 100_000_000,
    ;
}

/// Whether `c` is a decimal digit.
pub open spec fn is_digit(c: char) -> bool {
    c == '0' || c == '1' || c == '2' || c == '3' || c == '4' || c == '5' || c == '6' || c == '7'
        || c == '8' || c == '9'
}

/// The value of a decimal digit.
pub open spec fn digit_value(c: char) -> nat {
    if c == '1' {
        1
    } else if c == '2' {
        2
    } else if c == '3' {
        3
    } else if c == '4' {
        4
    } else if c == '5' {
        5
    } else if c == '6' {
        6
    } else if c == '7' {
        7
    } else if c == '8' {
        8
    } else if c == '9' {
        9
    } else {
        0
    }
}

/// Whether `s` is a number written in decimal: at least one digit, only
/// digits, and no leading zero.
pub open spec fn is_number(s: Seq<char>) -> bool {
    &&& s.len() >= 1
    &&& forall|i: int| 0 <= i < s.len() ==> is_digit(#[trigger] s[i])
    &&& s.len() > 1 ==> s[0] != '0'
}

/// The value of a string of decimal digits, read left to right.
pub open spec fn digits_value(s: Seq<char>) -> nat
    decreases s.len(),
{
    if s.len() == 0 {
        0
    } else {
        digits_value(s.drop_last()) * 10 + digit_value(s.last())
    }
}

/// A digit's character is a digit that reads back as its value.
proof fn lemma_digit_reads_back(d: nat)
    requires
        d < 10,
    ensures
        is_digit(digit_char(d)),
        digit_value(digit_char(d)) == d,
        d > 0 ==> digit_char(d) != '0',
{
}

/// A single character reads back as its digit value.
proof fn lemma_one_digit_value(c: char)
    ensures
        digits_value(seq![c]) == digit_value(c),
{
    let s = seq![c];
    assert(s.drop_last() =~= Seq::<char>::empty());
    assert(digits_value(Seq::<char>::empty()) == 0);
    assert(s.last() == c);
    assert(digits_value(s) == digits_value(s.drop_last()) * 10 + digit_value(s.last()));
}

/// `decimal(n)` is a number in decimal that reads back as `n`.
pub proof fn lemma_decimal_reads_back(n: nat)
    ensures
        is_number(decimal(n)),
        digits_value(decimal(n)) == n,
        n > 0 ==> decimal(n)[0] != '0',
    decreases n,
{
    if n < 10 {
        lemma_digit_reads_back(n);
        lemma_one_digit_value(digit_char(n));
    } else {
        lemma_decimal_reads_back(n / 10);
        lemma_digit_reads_back(n % 10);
        let d = decimal(n);
        assert(d.last() == digit_char(n % 10));
        assert(d.drop_last() =~= decimal(n / 10));
        assert(d[0] == decimal(n / 10)[0]);
        assert forall|i: int| 0 <= i < d.len() implies is_digit(#[trigger] d[i]) by {
            if i < d.len() - 1 {
                assert(d[i] == decimal(n / 10)[i]);
            }
        }
    }
}

/// `two_digits(n)` for `n` below 100 is two digits that read back as `n`.
pub proof fn lemma_two_digits_read_back(n: nat)
    requires
        n < 100,
    ensures
        two_digits(n).len() == 2,
        forall|i: int| 0 <= i < 2 ==> is_digit(#[trigger] two_digits(n)[i]),
        digits_value(two_digits(n)) == n,
{
    if n < 10 {
        let t = two_digits(n);
        lemma_digit_reads_back(n);
        assert(t.drop_last() =~= seq!['0']);
        lemma_one_digit_value('0');
    } else {
        lemma_decimal_reads_back(n);
        lemma_decimal_reads_back(n / 10);
        assert(decimal(n / 10).len() == 1);
    }
}

/// The text of a countdown reads back as the time rounded up to the
/// precision shown: with minutes, `M:SS` with `M * 60 + SS` the seconds;
/// without minutes, the seconds followed by `s`; below nine seconds, `S.D`
/// followed by `s` with `S * 10 + D` the tenths of seconds.
pub proof fn lemma_countdown_reads_back(nanos: nat, show_minutes: bool)
    ensures
        ceil_tenths(nanos) > 90 && show_minutes ==> exists|mins: Seq<char>, secs: Seq<char>|
            #![trigger digits_value(mins), digits_value(secs)]
            {
                &&& countdown_text(nanos, show_minutes) == mins + seq![':'] + secs
                &&& is_number(mins)
                &&& secs.len() == 2
                &&& forall|i: int| 0 <= i < 2 ==> is_digit(#[trigger] secs[i])
                &&& digits_value(secs) < 60
                &&& digits_value(mins) * 60 + digits_value(secs) == ceil_secs(nanos)
            },
        ceil_tenths(nanos) > 90 && !show_minutes ==> exists|secs: Seq<char>|
            #![trigger digits_value(secs)]
            {
                &&& countdown_text(nanos, show_minutes) == secs + seq!['s']
                &&& is_number(secs)
                &&& digits_value(secs) == ceil_secs(nanos)
            },
        ceil_tenths(nanos) <= 90 ==> exists|whole: Seq<char>, tenth: Seq<char>|
            #![trigger digits_value(whole), digits_value(tenth)]
            {
                &&& countdown_text(nanos, show_minutes) == whole + seq!['.'] + tenth + seq!['s']
                &&& is_number(whole)
                &&& tenth.len() == 1
                &&& is_digit(tenth[0])
                &&& digits_value(whole) * 10 + digits_value(tenth) == ceil_tenths(nanos)
            },
{
    let secs = ceil_secs(nanos);
    let tenths = ceil_tenths(nanos);
    if tenths > 90 {
        if show_minutes {
            lemma_decimal_reads_back(secs / 60);
            lemma_two_digits_read_back(secs % 60);
            assert(digits_value(decimal(secs / 60)) * 60 + digits_value(two_digits(secs % 60))
                == secs);
        } else {
            lemma_decimal_reads_back(secs);
            assert(digits_value(decimal(secs)) == secs);
        }
    } else {
        lemma_decimal_reads_back(tenths / 10);
        lemma_decimal_reads_back(tenths % 10);
        assert(decimal(tenths % 10).len() == 1);
        assert(digits_value(decimal(tenths / 10)) * 10 + digits_value(decimal(tenths % 10))
            == tenths);
    }
}

/// Appends one character to a string.
///
/// Trusted: it calls `String::push`, whose documentation says it appends
/// the given character to the end of the string; the contract claims just
/// that, over the string's character sequence.
#[verifier::external_body]
pub(crate) fn push_char(out: &mut String, c: char)
    ensures
        final(out)@ == old(out)@.push(c),
{
    out.push(c);
}

/// The character of the decimal digit `d`.
fn digit(d: u64) -> (r: char)
    requires
        d < 10,
    ensures
        r == digit_char(d as nat),
{
    if d == 0 {
        '0'
    } else if d == 1 {
        '1'
    } else if d == 2 {
        '2'
    } else if d == 3 {
        '3'
    } else if d == 4 {
        '4'
    } else if d == 5 {
        '5'
    } else if d == 6 {
        '6'
    } else if d == 7 {
        '7'
    } else if d == 8 {
        '8'
    } else {
        '9'
    }
}

/// Appends the decimal digits of `n`.
pub fn push_decimal(out: &mut String, n: u64)
    ensures
        final(out)@ == old(out)@ + decimal(n as nat),
    decreases n,
{
    if n < 10 {
        push_char(out, digit(n));
        assert(old(out)@.push(digit_char(n as nat)) =~= old(out)@ + decimal(n as nat));
    } else {
        push_decimal(out, n / 10);
        push_char(out, digit(n % 10));
        assert(old(out)@ + decimal((n / 10) as nat) + seq![digit_char((n % 10) as nat)]
            =~= old(out)@ + decimal(n as nat));
    }
}

/// A countdown display of a time: `M:SS` for times over nine seconds (or
/// whole seconds followed by `s` when minutes are not shown), and `S.Ss` for
/// shorter times. Times are rounded up to the precision shown, so 16,250
/// milliseconds show as `0:17` and 6,250 milliseconds as `6.3s`.
pub struct ShowCountdown {
    show_minutes: bool,
    time: Duration,
}

impl ShowCountdown {
    pub closed spec fn spec_show_minutes(&self) -> bool {
        self.show_minutes
    }

    pub closed spec fn spec_time(&self) -> Duration {
        self.time
    }

    /// A countdown display that shows minutes.
    pub fn with_minutes(time: Duration) -> (r: ShowCountdown)
        ensures
            r.spec_show_minutes(),
            r.spec_time() == time,
    {
        ShowCountdown { show_minutes: true, time }
    }

    /// A countdown display that shows seconds only.
    pub fn without_minutes(time: Duration) -> (r: ShowCountdown)
        ensures
            !r.spec_show_minutes(),
            r.spec_time() == time,
    {
        ShowCountdown { show_minutes: false, time }
    }

    /// Appends the display to `out`.
    pub fn write_to(&self, out: &mut String)
        requires
            countdown_fits(self.spec_time()@),
        ensures
            final(out)@ == old(out)@ + countdown_text(self.spec_time()@, self.spec_show_minutes()),
    {
        let ghost nanos = self.time@;
        let raw_s = self.time.as_secs();
        let raw_ns = self.time.subsec_nanos() as u64;

        let raw_d = raw_s * 10 + raw_ns / 100_000_000;
        let raw_d_ns = raw_ns % 100_000_000;

        let s_ceil = if raw_ns > 0 {
            raw_s + 1
        } else {
            raw_s
        };
        let d_ceil = if raw_d_ns > 0 {
            raw_d + 1
        } else {
            raw_d
        };
        assert(s_ceil == ceil_secs(nanos));
        assert(d_ceil == ceil_tenths(nanos));

        if d_ceil > 90 {
            if self.show_minutes {
                let m = s_ceil / 60;
                let s = s_ceil % 60;
                push_decimal(out, m);
                push_char(out, ':');
                if s < 10 {
                    push_char(out, '0');
                    push_char(out, digit(s));
                } else {
                    push_decimal(out, s);
                }
            } else {
                push_decimal(out, s_ceil);
                push_char(out, 's');
            }
        } else {
            let s = d_ceil / 10;
            let d = d_ceil % 10;
            push_decimal(out, s);
            push_char(out, '.');
            push_decimal(out, d);
            push_char(out, 's');
        }
        assert(out@ =~= old(out)@ + countdown_text(nanos, self.show_minutes));
    }

    /// The display as a string.
    pub fn to_string(&self) -> (r: String)
        requires
            countdown_fits(self.spec_time()@),
        ensures
            r@ == countdown_text(self.spec_time()@, self.spec_show_minutes()),
    {
        let mut out = String::new();
        self.write_to(&mut out);
        assert(out@ =~= countdown_text(self.time@, self.show_minutes));
        out
    }
}

} // verus!
