//! Lengths of time, kept as a whole number of nanoseconds, and their text forms.

use vstd::prelude::*;

verus! {

/// Nanoseconds in one second.
pub const NANOS_PER_SEC: u128 = 1_000_000_000;

/// Nanoseconds in one millisecond.
pub const NANOS_PER_MILLI: u128 = 1_000_000;

/// The longest span that can be held, in nanoseconds.
pub const MAX_NANOS: u128 = 0xffff_ffff_ffff_ffff_ffff_ffff_ffff_ffff;

/// `n`, held down to the longest span.
pub open spec fn capped(n: nat) -> nat {
    if n <= MAX_NANOS as nat {
        n
    } else {
        MAX_NANOS as nat
    }
}

/// The character that stands for the decimal digit `d`.
pub open spec fn digit_char(d: nat) -> char {
    if d == 0 {
        '0'
    } else if d == 1 {
        '1'
    } else if d == 2 {
        '2'
    } else if d == 3 {
        '3'
    } else if d == 4 {
        '4'
    } else if d == 5 {
        '5'
    } else if d == 6 {
        '6'
    } else if d == 7 {
        '7'
    } else if d == 8 {
        '8'
    } else {
        '9'
    }
}

/// `n` in decimal, without leading zeros.
pub open spec fn decimal_text(n: nat) -> Seq<char>
    decreases n,
{
    if n < 10 {
        seq![digit_char(n)]
    } else {
        decimal_text(n / 10).push(digit_char(n % 10))
    }
}

/// `n` in decimal, with zeros in front until it is at least `width` characters long.
pub open spec fn padded_text(n: nat, width: nat) -> Seq<char> {
    let digits = decimal_text(n);
    if digits.len() >= width {
        digits
    } else {
        Seq::new((width - digits.len()) as nat, |i: int| '0') + digits
    }
}

/// A number of seconds as hours, minutes and seconds, each of at least two digits.
/// The hours are not wrapped at 24.
pub open spec fn clock_text(secs: nat) -> Seq<char> {
    padded_text(secs / 3600, 2) + seq![':'] + padded_text((secs / 60) % 60, 2) + seq![':']
        + padded_text(secs % 60, 2)
}

/// A number of nanoseconds as hours, minutes, seconds and three digits of milliseconds.
pub open spec fn split_text(nanos: nat) -> Seq<char> {
    clock_text(nanos / (NANOS_PER_SEC as nat)) + seq!['.'] + padded_text(
        (nanos / (NANOS_PER_MILLI as nat)) % 1000,
        3,
    )
}

/// `String::push` puts one character at the end of the string and leaves the rest as it was.
pub assume_specification[ String::push ](s: &mut String, ch: char)
    ensures
        final(s)@ == old(s)@.push(ch),
;

/// The number of decimal digits of `n` is at least one and at most `n` itself (one for zero).
pub proof fn lemma_decimal_len(n: nat)
    ensures
        1 <= decimal_text(n).len(),
        decimal_text(n).len() <= n || decimal_text(n).len() == 1,
        n < 10 <==> decimal_text(n).len() == 1,
    decreases n,
{
    if n >= 10 {
        lemma_decimal_len(n / 10);
    }
}

fn digit(d: u128) -> (c: char)
    requires
        d < 10,
    ensures
        c == digit_char(d as nat),
{
    if d == 0 {
        '0'
    } else if d == 1 {
        '1'
    } else if d == 2 {
        '2'
    } else if d == 3 {
        '3'
    } else if d == 4 {
        '4'
    } else if d == 5 {
        '5'
    } else if d == 6 {
        '6'
    } else if d == 7 {
        '7'
    } else if d == 8 {
        '8'
    } else {
        '9'
    }
}

fn decimal_len(n: u128) -> (len: u128)
    ensures
        len == decimal_text(n as nat).len(),
        len <= n || len == 1,
    decreases n,
{
    proof {
        lemma_decimal_len(n as nat);
    }
    if n < 10 {
        1
    } else {
        proof {
            lemma_decimal_len((n / 10) as nat);
        }
        let shorter: u128 = decimal_len(n / 10);
        shorter + 1
    }
}

fn push_decimal(s: &mut String, n: u128)
    ensures
        final(s)@ == old(s)@ + decimal_text(n as nat),
    decreases n,
{
    if n >= 10 {
        push_decimal(s, n / 10);
    }
    s.push(digit(n % 10));
    assert(s@ =~= old(s)@ + decimal_text(n as nat));
}

/// Appends `n` in decimal to `s`, with zeros in front up to `width` characters.
pub fn push_padded(s: &mut String, n: u128, width: u128)
    ensures
        final(s)@ == old(s)@ + padded_text(n as nat, width as nat),
{
    let len: u128 = decimal_len(n);
    if len < width {
        let zeros: u128 = width - len;
        let mut i: u128 = 0;
        while i < zeros
            invariant
                i <= zeros,
                s@ =~= old(s)@ + Seq::new(i as nat, |j: int| '0'),
            decreases zeros - i,
        {
            s.push('0');
            i = i + 1;
        }
        push_decimal(s, n);
        assert(s@ =~= old(s)@ + padded_text(n as nat, width as nat));
    } else {
        push_decimal(s, n);
    }
}

/// A length of time.
#[derive(Clone, Copy, Debug, PartialEq, Eq, Structural)]
pub struct TimeSpan {
    nanos: u128,
}

impl View for TimeSpan {
    type V = nat;

    /// The span's length in nanoseconds.
    closed spec fn view(&self) -> nat {
        self.nanos as nat
    }
}

impl TimeSpan {
    /// A span of `secs` seconds and `nanos` nanoseconds.
    pub fn new(secs: u64, nanos: u32) -> (r: TimeSpan)
        ensures
            r@ == secs as nat * NANOS_PER_SEC as nat + nanos as nat,
    {
        assert(secs as nat * NANOS_PER_SEC as nat <= 0xffff_ffff_ffff_ffff * 1_000_000_000)
            by (nonlinear_arith)
            requires
                secs <= 0xffff_ffff_ffff_ffff,
                NANOS_PER_SEC == 1_000_000_000,
        ;
        let whole: u128 = secs as u128 * NANOS_PER_SEC;
        TimeSpan { nanos: whole + nanos as u128 }
    }

    /// The empty span.
    pub fn zero() -> (r: TimeSpan)
        ensures
            r@ == 0,
    {
        TimeSpan { nanos: 0 }
    }

    /// A span of `nanos` nanoseconds.
    pub fn from_nanos(nanos: u128) -> (r: TimeSpan)
        ensures
            r@ == nanos as nat,
    {
        TimeSpan { nanos }
    }

    /// A span of `millis` milliseconds.
    pub fn from_millis(millis: u64) -> (r: TimeSpan)
        ensures
            r@ == millis as nat * NANOS_PER_MILLI as nat,
    {
        assert(millis as nat * NANOS_PER_MILLI as nat <= 0xffff_ffff_ffff_ffff * 1_000_000)
            by (nonlinear_arith)
            requires
                millis <= 0xffff_ffff_ffff_ffff,
                NANOS_PER_MILLI == 1_000_000,
        ;
        TimeSpan { nanos: millis as u128 * NANOS_PER_MILLI }
    }

    /// The span in nanoseconds.
    pub fn as_nanos(&self) -> (n: u128)
        ensures
            n as nat == self@,
    {
        self.nanos
    }

    /// The whole seconds of the span.
    pub fn as_secs(&self) -> (n: u128)
        ensures
            n as nat == self@ / (NANOS_PER_SEC as nat),
    {
        self.nanos / NANOS_PER_SEC
    }

    /// The whole milliseconds of the span.
    pub fn as_millis(&self) -> (n: u128)
        ensures
            n as nat == self@ / (NANOS_PER_MILLI as nat),
    {
        self.nanos / NANOS_PER_MILLI
    }

    /// Every span is at most the longest one.
    pub proof fn lemma_bounded(&self)
        ensures
            self@ <= MAX_NANOS as nat,
            capped(self@) == self@,
    {
    }

    /// The sum of two spans, held down to the longest span.
    pub fn saturating_add(&self, other: TimeSpan) -> (r: TimeSpan)
        ensures
            r@ == capped(self@ + other@),
    {
        if self.nanos <= MAX_NANOS - other.nanos {
            TimeSpan { nanos: self.nanos + other.nanos }
        } else {
            TimeSpan { nanos: MAX_NANOS }
        }
    }

    /// What is left of the span after `other`, and nothing where `other` is the longer.
    pub fn saturating_sub(&self, other: TimeSpan) -> (r: TimeSpan)
        ensures
            r@ == if self@ >= other@ {
                self@ - other@
            } else {
                0
            },
    {
        if self.nanos >= other.nanos {
            TimeSpan { nanos: self.nanos - other.nanos }
        } else {
            TimeSpan { nanos: 0 }
        }
    }

    /// The span as `HH:MM:SS`; parts of a second are dropped.
    pub fn clock_string(&self) -> (s: String)
        ensures
            s@ == clock_text(self@ / (NANOS_PER_SEC as nat)),
    {
        let secs: u128 = self.nanos / NANOS_PER_SEC;
        let mut s = String::new();
        push_padded(&mut s, secs / 3600, 2);
        s.push(':');
        push_padded(&mut s, (secs / 60) % 60, 2);
        s.push(':');
        push_padded(&mut s, secs % 60, 2);
        assert(s@ =~= clock_text(self@ / (NANOS_PER_SEC as nat)));
        s
    }

    /// The span as `HH:MM:SS.mmm`; parts of a millisecond are dropped.
    pub fn split_string(&self) -> (s: String)
        ensures
            s@ == split_text(self@),
    {
        let mut s = self.clock_string();
        s.push('.');
        push_padded(&mut s, (self.nanos / NANOS_PER_MILLI) % 1000, 3);
        assert(s@ =~= split_text(self@));
        s
    }
}

} // verus!
