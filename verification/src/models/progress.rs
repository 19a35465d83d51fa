//! Progress of an upload on the terminal: what to write over the last
//! line shown.

use crate::text::{decimal, digit_char, digit_str, u64_to_string};
use vstd::arithmetic::div_mod::{
    lemma_div_denominator, lemma_fundamental_div_mod, lemma_mod_pos_bound,
};
use vstd::prelude::*;
use vstd::string::StringSliceAdditionalSpecFns;
use vstd::utf8::encode_utf8;

verus! {

/// Bytes in a KB, as sizes are shown.
pub const KB: u64 = 1024;

/// Bytes in a MB.
pub const MB: u64 = 1048576;

/// Bytes in a GB.
pub const GB: u64 = 1073741824;

/// The first number that takes more than 53 bits.
pub const EXACT_LIMIT: u64 = 0x20_0000_0000_0000;

/// `n / d`, rounded to the nearest whole number; a tie goes to the even one.
pub open spec fn round_half_even(n: nat, d: nat) -> nat {
    let q = n / d;
    let r = n % d;
    if 2 * r > d || (2 * r == d && q % 2 == 1) {
        q + 1
    } else {
        q
    }
}

/// The distance between the numbers of 53 significant bits around `n`: one
/// up to 53 bits, doubling with every bit more.
pub open spec fn grain(n: nat) -> nat
    decreases n,
{
    if n < EXACT_LIMIT {
        1
    } else {
        2 * grain(n / 2)
    }
}

/// `n` rounded to 53 significant bits, a tie going to the even one: the
/// precision with which a size is shown.
pub open spec fn to_53_bits(n: nat) -> nat {
    round_half_even(n, grain(n)) * grain(n)
}

/// A size in hundredths of a unit, rounded to the nearest hundredth; a tie
/// goes to the even one.
pub open spec fn hundredths(bytes: nat, unit: nat) -> nat {
    round_half_even(to_53_bits(bytes) * 100, unit)
}

/// A size in units with two decimals, and the unit's name behind it.
pub open spec fn scaled(bytes: nat, unit: nat, suffix: Seq<char>) -> Seq<char> {
    let h = hundredths(bytes, unit);
    decimal(h / 100) + "."@ + seq![digit_char((h % 100) / 10), digit_char(h % 10)] + suffix
}

/// How a number of bytes is shown: in the largest unit that it reaches,
/// with two decimals, or in bytes.
pub open spec fn formatted_bytes(bytes: u64) -> Seq<char> {
    if bytes >= GB {
        scaled(bytes as nat, GB as nat, " GB"@)
    } else if bytes >= MB {
        scaled(bytes as nat, MB as nat, " MB"@)
    } else if bytes >= KB {
        scaled(bytes as nat, KB as nat, " KB"@)
    } else {
        decimal(bytes as nat) + " B"@
    }
}

/// Divides and rounds to the nearest whole number, a tie going to the even
/// one.
pub fn div_round_half_even(n: u128, d: u128) -> (r: u128)
    requires
        0 < d <= u64::MAX,
        n <= u128::MAX - 1,
    ensures
        r == round_half_even(n as nat, d as nat),
{
    let q: u128 = n / d;
    let r: u128 = n % d;
    if 2 * r > d || (2 * r == d && q % 2 == 1) {
        q + 1
    } else {
        q
    }
}

/// Rounds a number to 53 significant bits, a tie going to the even one.
pub fn round_to_53_bits(n: u64) -> (r: u128)
    ensures
        r == to_53_bits(n as nat),
        r <= 0x2_0000_0000_0000_0000,
{
    let mut m: u64 = n;
    let mut g: u64 = 1;
    while m >= EXACT_LIMIT
        invariant
            1 <= g,
            g == 1 || g * 0x10_0000_0000_0000 <= n,
            m == n / g,
            grain(n as nat) == g * grain(m as nat),
        decreases m,
    {
        proof {
            lemma_fundamental_div_mod(n as int, g as int);
            lemma_mod_pos_bound(n as int, g as int);
            assert(g * 0x20_0000_0000_0000 <= g * m) by (nonlinear_arith)
                requires
                    m >= 0x20_0000_0000_0000,
                    g >= 0,
            ;
            lemma_div_denominator(n as int, g as int, 2);
            assert(grain(m as nat) == 2 * grain((m / 2) as nat));
            assert(g * (2 * grain((m / 2) as nat)) == (g * 2) * grain((m / 2) as nat))
                by (nonlinear_arith);
        }
        m = m / 2;
        g = g * 2;
    }
    assert(grain(m as nat) == 1);
    let rounded = div_round_half_even(n as u128, g as u128);
    assert(rounded * g <= 0x2_0000_0000_0000_0000) by (nonlinear_arith)
        requires
            rounded <= m + 1,
            m < 0x20_0000_0000_0000,
            1 <= g < 4096,
    ;
    rounded * (g as u128)
}

/// Writes a size in units with two decimals.
fn scaled_text(bytes: u64, unit: u64, suffix: &str) -> (text: String)
    requires
        unit >= 1024,
    ensures
        text@ == scaled(bytes as nat, unit as nat, suffix@),
{
    let rounded = round_to_53_bits(bytes);
    let h = div_round_half_even(rounded * 100, unit as u128);
    assert(h <= 0xFFFF_FFFF_FFFF_FFFF) by {
        let n = rounded as int * 100;
        assert(h <= n / (unit as int) + 1);
        assert(n / (unit as int) <= n / 1024) by {
            vstd::arithmetic::div_mod::lemma_div_is_ordered_by_denominator(n, 1024, unit as int);
        }
        assert(n <= 0x2_0000_0000_0000_0000 * 100);
    }
    let whole: u64 = (h / 100) as u64;
    let cents: u64 = (h % 100) as u64;
    let mut text = u64_to_string(whole);
    text.append(".");
    text.append(digit_str(cents / 10));
    text.append(digit_str(cents % 10));
    text.append(suffix);
    assert(text@ =~= scaled(bytes as nat, unit as nat, suffix@)) by {
        assert(cents % 10 == h % 10);
    }
    text
}

/// Writes a number of bytes for the reader: in GB, MB or KB with two
/// decimals, or in bytes.
pub fn format_bytes(bytes: u64) -> (text: String)
    ensures
        text@ == formatted_bytes(bytes),
{
    if bytes >= GB {
        scaled_text(bytes, GB, " GB")
    } else if bytes >= MB {
        scaled_text(bytes, MB, " MB")
    } else if bytes >= KB {
        scaled_text(bytes, KB, " KB")
    } else {
        let mut text = u64_to_string(bytes);
        text.append(" B");
        text
    }
}

/// A callback that shows nothing.
#[derive(Debug, Clone, Copy)]
pub struct NoOpCallback;

/// A callback that keeps one line of the terminal up to date.
#[derive(Debug, Clone)]
pub struct VerboseProgressCallback {
    pub enabled: bool,
    /// The line shown last.
    pub last_output: String,
}

impl Default for NoOpCallback {
    /// The callback that shows nothing.
    fn default() -> (r: Self) {
        NoOpCallback
    }
}

/// `count` spaces.
pub open spec fn spaces(count: nat) -> Seq<char> {
    Seq::new(count, |i: int| ' ')
}

/// What wipes a line of `width` bytes off the terminal: back to the start
/// of the line, spaces over it, and back again. Nothing for an empty line.
pub open spec fn wipe(width: nat) -> Seq<char> {
    if width == 0 {
        Seq::empty()
    } else {
        seq!['\r'] + spaces(width) + seq!['\r']
    }
}

impl VerboseProgressCallback {
    /// A callback that has shown nothing yet.
    pub fn new(enabled: bool) -> (r: Self)
        ensures
            r.enabled == enabled,
            r.last_output@.len() == 0,
    {
        VerboseProgressCallback { enabled, last_output: String::new() }
    }

    /// What to write to wipe the line shown last.
    pub fn clear_line(&self) -> (text: String)
        ensures
            text@ == wipe(encode_utf8(self.last_output@).len()),
    {
        let width = self.last_output.as_str().as_bytes().len();
        let mut text = String::new();
        assert(width == encode_utf8(self.last_output@).len());
        if width == 0 {
            assert(text@ =~= wipe(0));
            return text;
        }
        proof {
            reveal_strlit("\r");
            reveal_strlit(" ");
        }
        text.append("\r");
        let mut i: usize = 0;
        while i < width
            invariant
                i <= width,
                " "@ == seq![' '],
                text@ == seq!['\r'] + spaces(i as nat),
            decreases width - i,
        {
            text.append(" ");
            i += 1;
            assert(text@ =~= seq!['\r'] + spaces(i as nat));
        }
        text.append("\r");
        assert(text@ =~= wipe(width as nat));
        text
    }

    /// Takes a new line to show and gives what to write for it: what wipes
    /// the line shown last, then the new line. Nothing is written, and
    /// nothing changes, where the callback is not enabled.
    pub fn show(&mut self, output: String) -> (text: Option<String>)
        ensures
            final(self).enabled == old(self).enabled,
            !old(self).enabled ==> text.is_none() && *final(self) == *old(self),
            old(self).enabled ==> final(self).last_output == output,
            old(self).enabled ==> (text matches Some(t) && t@ == wipe(
                encode_utf8(old(self).last_output@).len(),
            ) + output@),
    {
        if !self.enabled {
            return None;
        }
        let mut text = self.clear_line();
        text.append(output.as_str());
        self.last_output = output;
        Some(text)
    }

    /// Gives what to write when the upload is over: what wipes the line
    /// shown last, and a line break. Nothing where the callback is not
    /// enabled.
    pub fn finish(&self) -> (text: Option<String>)
        ensures
            !self.enabled ==> text.is_none(),
            self.enabled ==> (text matches Some(t) && t@ == wipe(
                encode_utf8(self.last_output@).len(),
            ) + "\n"@),
    {
        if !self.enabled {
            return None;
        }
        let mut text = self.clear_line();
        text.append("\n");
        Some(text)
    }
}

} // verus!
