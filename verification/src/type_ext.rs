//! Small extensions on characters and strings: ASCII conversion, subsequence
//! tests, unique snake-case name generation, display-width fitting, byte-size
//! formatting, and the OSC-52 clipboard escape sequence.
use vstd::prelude::*;

use crate::text::{dec_digits, digit_char, push_char, u64_to_string};
use base64::Engine;
use unicode_width::UnicodeWidthChar;

verus! {

/// Conversion of a character into its ASCII byte, when it has one.
pub trait ToAscii: Sized + Copy + vstd::view::View<V = char> {
    fn to_ascii(self) -> (r: Option<u8>)
        ensures
            match r {
                Some(b) => self.view() as u32 <= 127 && b == self.view() as u32 as u8,
                None => self.view() as u32 > 127,
            },
    ;
}

impl ToAscii for char {
    fn to_ascii(self) -> (r: Option<u8>) {
        let u = self as u32;
        if u <= 127 {
            Some(u as u8)
        } else {
            None
        }
    }
}

/// Whether `sub` embeds into `sup` in order: the greedy left-to-right match
/// succeeds exactly when some embedding exists.
pub open spec fn is_subsequence(sub: Seq<char>, sup: Seq<char>) -> bool
    decreases sup.len(),
{
    if sub.len() == 0 {
        true
    } else if sup.len() == 0 {
        false
    } else if sup[0] == sub[0] {
        is_subsequence(sub.drop_first(), sup.drop_first())
    } else {
        is_subsequence(sub, sup.drop_first())
    }
}

/// Subsequence test: every character of the argument occurs, in order, in the
/// receiver.
pub trait HasSubsequence: vstd::view::View<V = Seq<char>> {
    fn has_subsequence(&self, other: &Self) -> (r: bool)
        ensures
            r == is_subsequence(other.view(), self.view()),
    ;
}

impl HasSubsequence for str {
    fn has_subsequence(&self, other: &str) -> (r: bool) {
        let n = self.unicode_len();
        let m = other.unicode_len();
        let mut i: usize = 0;
        let mut j: usize = 0;
        proof {
            assert(self@.skip(0) =~= self@);
            assert(other@.skip(0) =~= other@);
        }
        while i < n
            invariant
                0 <= i <= n == self@.len(),
                0 <= j <= m == other@.len(),
                is_subsequence(other@, self@) == is_subsequence(
                    other@.skip(j as int),
                    self@.skip(i as int),
                ),
            decreases n - i,
        {
            if j == m {
                proof {
                    assert(other@.skip(j as int).len() == 0);
                }
                return true;
            }
            let c = self.get_char(i);
            proof {
                assert(self@.skip(i as int)[0] == self@[i as int]);
                assert(other@.skip(j as int)[0] == other@[j as int]);
                assert(self@.skip(i as int).drop_first() =~= self@.skip(i + 1));
                assert(other@.skip(j as int).drop_first() =~= other@.skip(j + 1));
            }
            if c == other.get_char(j) {
                j = j + 1;
            }
            i = i + 1;
        }
        proof {
            assert(self@.skip(i as int).len() == 0);
            if j < m {
                assert(other@.skip(j as int).len() > 0);
            } else {
                assert(other@.skip(j as int).len() == 0);
            }
        }
        j == m
    }
}

/// The name that the generator yields at a stage: the base itself first, then
/// the base with `_2`, `_3`, and so on.
pub open spec fn staged_name(base: Seq<char>, stage: nat) -> Seq<char> {
    if stage <= 1 {
        base
    } else {
        base + seq!['_'] + dec_digits(stage)
    }
}

/// Yields `base`, `base_2`, `base_3`, ... in order.
pub struct SnakeCaseNameGen<'a> {
    base: &'a str,
    stage: u32,
}

impl<'a> SnakeCaseNameGen<'a> {
    /// The base the generator was started with.
    pub closed spec fn base_view(&self) -> Seq<char> {
        self.base@
    }

    /// How many names have been yielded so far.
    pub closed spec fn stage_count(&self) -> nat {
        self.stage as nat
    }

    pub fn with(base: &'a str) -> (r: Self)
        ensures
            r.base_view() == base@,
            r.stage_count() == 0,
    {
        Self { base, stage: 0 }
    }

    /// The next candidate name in the sequence.
    pub fn next(&mut self) -> (r: Option<String>)
        requires
            old(self).stage_count() < u32::MAX,
        ensures
            final(self).base_view() == old(self).base_view(),
            final(self).stage_count() == old(self).stage_count() + 1,
            match r {
                Some(s) => s@ == staged_name(old(self).base_view(), final(self).stage_count()),
                None => false,
            },
    {
        self.stage = self.stage + 1;
        if self.stage == 1 {
            Some(self.base.to_owned())
        } else {
            let mut s = self.base.to_owned();
            push_char(&mut s, '_');
            let digits = u64_to_string(self.stage as u64);
            s.append(digits.as_str());
            proof {
                assert(s@ =~= self.base@ + seq!['_'] + dec_digits(self.stage as nat));
            }
            Some(s)
        }
    }
}

/// Access to the name generator from the base string itself.
pub trait SnakeCaseNameGenExt: vstd::view::View<V = Seq<char>> {
    fn snake_case_names(&self) -> (r: SnakeCaseNameGen<'_>)
        ensures
            r.base_view() == self.view(),
            r.stage_count() == 0,
    ;
}

impl SnakeCaseNameGenExt for str {
    fn snake_case_names(&self) -> (r: SnakeCaseNameGen<'_>) {
        SnakeCaseNameGen::with(self)
    }
}

/// The number of terminal columns a character occupies; zero for control
/// characters and other zero-width characters.
pub uninterp spec fn char_cols(c: char) -> nat;

/// Relies on unicode_width's `UnicodeWidthChar::width`: the displayed width
/// of a character depends on the character alone.
#[verifier::external_body]
fn char_width(c: char) -> (r: usize)
    ensures
        r == char_cols(c),
{
    c.width().unwrap_or(0)
}

/// How many leading characters of `s` fit into `w` columns: the longest
/// prefix whose total display width does not exceed the budget.
pub open spec fn fit_len(s: Seq<char>, w: nat) -> nat
    decreases s.len(),
{
    if s.len() == 0 {
        0
    } else if char_cols(s[0]) > w {
        0
    } else {
        1 + fit_len(s.drop_first(), (w - char_cols(s[0])) as nat)
    }
}

/// `fit_len` never exceeds the length of the sequence.
pub proof fn lemma_fit_len_bound(s: Seq<char>, w: nat)
    ensures
        fit_len(s, w) <= s.len(),
    decreases s.len(),
{
    if s.len() > 0 && char_cols(s[0]) <= w {
        lemma_fit_len_bound(s.drop_first(), (w - char_cols(s[0])) as nat);
    }
}

/// Truncation of a string to a display width.
pub trait FitToWidth: vstd::view::View<V = Seq<char>> {
    fn fit_to_width(&self, width: usize) -> (r: &Self)
        ensures
            r.view() == self.view().subrange(0, fit_len(self.view(), width as nat) as int),
    ;
}

impl FitToWidth for str {
    fn fit_to_width(&self, width: usize) -> (r: &str) {
        let n = self.unicode_len();
        let mut i: usize = 0;
        let mut budget: usize = width;
        proof {
            lemma_fit_len_bound(self@, width as nat);
            assert(self@.skip(0) =~= self@);
        }
        while i < n
            invariant
                0 <= i <= n == self@.len(),
                budget <= width,
                fit_len(self@, width as nat) == i + fit_len(self@.skip(i as int), budget as nat),
            decreases n - i,
        {
            let c = self.get_char(i);
            let cw = char_width(c);
            proof {
                assert(self@.skip(i as int)[0] == self@[i as int]);
                assert(self@.skip(i as int).drop_first() =~= self@.skip(i + 1));
                lemma_fit_len_bound(self@.skip(i as int), budget as nat);
            }
            if cw > budget {
                return self.substring_char(0, i);
            }
            budget = budget - cw;
            i = i + 1;
        }
        proof {
            assert(self@.skip(n as int).len() == 0);
            assert(self@.subrange(0, n as int) =~= self@);
        }
        self.substring_char(0, n)
    }
}

/// The rendering of `n` scaled by a power-of-1024 divisor with two decimal
/// places, round half up, followed by the unit.
pub open spec fn scaled_size_text(n: nat, div: nat, unit: Seq<char>) -> Seq<char>
    recommends
        div >= 2,
{
    let scaled = (n * 100 + div / 2) as int / div as int;
    dec_digits((scaled / 100) as nat) + seq!['.'] + seq![
        digit_char(((scaled / 10) % 10) as nat),
        digit_char((scaled % 10) as nat),
    ] + unit
}

/// What `human_readable_size` returns for each volume.
pub open spec fn human_size_text(n: nat) -> Seq<char> {
    let kib: nat = 1024;
    if n < kib {
        dec_digits(n) + seq![' ', 'B']
    } else if n < kib * kib {
        scaled_size_text(n, kib, seq![' ', 'K', 'B'])
    } else if n < kib * kib * kib {
        scaled_size_text(n, kib * kib, seq![' ', 'M', 'B'])
    } else if n < kib * kib * kib * kib {
        scaled_size_text(n, kib * kib * kib, seq![' ', 'G', 'B'])
    } else if n < kib * kib * kib * kib * kib {
        scaled_size_text(n, kib * kib * kib * kib, seq![' ', 'T', 'B'])
    } else {
        scaled_size_text(n, kib * kib * kib * kib * kib, seq![' ', 'P', 'B'])
    }
}

/// Renders a byte volume with the largest fitting binary unit and two
/// decimal places.
pub fn human_readable_size(volume: u64) -> (r: String)
    ensures
        r@ == human_size_text(volume as nat),
{
    let kib: u64 = 1024;
    if volume < kib {
        let mut s = u64_to_string(volume);
        proof {
            reveal_strlit(" B");
        }
        s.append(" B");
        proof {
            assert(s@ =~= human_size_text(volume as nat));
        }
        s
    } else if volume < kib * kib {
        proof {
            reveal_strlit(" KB");
            assert(" KB"@ =~= seq![' ', 'K', 'B']);
        }
        scaled_size_string(volume, kib, " KB")
    } else if volume < kib * kib * kib {
        proof {
            reveal_strlit(" MB");
            assert(" MB"@ =~= seq![' ', 'M', 'B']);
        }
        scaled_size_string(volume, kib * kib, " MB")
    } else if volume < kib * kib * kib * kib {
        proof {
            reveal_strlit(" GB");
            assert(" GB"@ =~= seq![' ', 'G', 'B']);
        }
        scaled_size_string(volume, kib * kib * kib, " GB")
    } else if volume < kib * kib * kib * kib * kib {
        proof {
            reveal_strlit(" TB");
            assert(" TB"@ =~= seq![' ', 'T', 'B']);
        }
        scaled_size_string(volume, kib * kib * kib * kib, " TB")
    } else {
        proof {
            reveal_strlit(" PB");
            assert(" PB"@ =~= seq![' ', 'P', 'B']);
        }
        scaled_size_string(volume, kib * kib * kib * kib * kib, " PB")
    }
}

/// Renders `n / div` with two decimal places, round half up, and the unit.
fn scaled_size_string(n: u64, div: u64, unit: &str) -> (r: String)
    requires
        div >= 1024,
    ensures
        r@ == scaled_size_text(n as nat, div as nat, unit@),
{
    let wide: u128 = (n as u128) * 100 + (div as u128) / 2;
    let scaled_wide: u128 = wide / (div as u128);
    proof {
        assert(scaled_wide <= wide) by (nonlinear_arith)
            requires
                scaled_wide == wide / (div as u128),
                div >= 2,
        ;
    }
    let scaled: u64 = (scaled_wide % 0x1_0000_0000_0000_0000) as u64;
    proof {
        assert(n as nat * 100 + div as nat / 2 == wide) by (nonlinear_arith)
            requires
                wide == (n as u128) * 100 + (div as u128) / 2,
                n < 0x1_0000_0000_0000_0000,
                div < 0x1_0000_0000_0000_0000,
        ;
        assert(wide < 0x80_0000_0000_0000_0000) by (nonlinear_arith)
            requires
                wide == (n as u128) * 100 + (div as u128) / 2,
                n < 0x1_0000_0000_0000_0000,
                div < 0x1_0000_0000_0000_0000,
        ;
        assert(scaled_wide < 0x1_0000_0000_0000_0000) by (nonlinear_arith)
            requires
                scaled_wide == wide / (div as u128),
                div >= 1024,
                wide < 0x80_0000_0000_0000_0000,
        ;
        assert(scaled == scaled_wide);
    }
    let mut s = u64_to_string(scaled / 100);
    push_char(&mut s, '.');
    push_char(&mut s, digit_to_char_pub((scaled / 10 % 10) as usize));
    push_char(&mut s, digit_to_char_pub((scaled % 10) as usize));
    s.append(unit);
    proof {
        assert(s@ =~= scaled_size_text(n as nat, div as nat, unit@));
    }
    s
}

/// Turns a digit into its character.
fn digit_to_char_pub(d: usize) -> (c: char)
    requires
        d < 10,
    ensures
        c == digit_char(d as nat),
{
    proof {
        reveal_strlit("0123456789");
    }
    let s: &str = "0123456789";
    s.get_char(d)
}

/// The standard, padded base-64 encoding of a byte sequence.
pub uninterp spec fn b64_of(b: Seq<u8>) -> Seq<char>;

/// Relies on base64's `Engine::encode` with the `STANDARD` engine: the
/// encoding depends on the input bytes alone.
#[verifier::external_body]
fn b64_encode(b: &[u8]) -> (r: String)
    ensures
        r@ == b64_of(b@),
{
    base64::engine::general_purpose::STANDARD.encode(b)
}

/// The OSC-52 escape sequence that places `data`, base-64 encoded, on the
/// terminal's clipboard.
pub open spec fn osc52_text(data: Seq<u8>) -> Seq<char> {
    seq!['\u{1b}', ']', '5', '2', ';', 'c', ';'] + b64_of(data) + seq!['\u{7}']
}

/// Builds the OSC-52 clipboard escape for the given bytes; writing it to the
/// terminal is the caller's business.
pub fn osc52_sequence(data: &[u8]) -> (r: String)
    ensures
        r@ == osc52_text(data@),
{
    proof {
        reveal_strlit("\u{1b}]52;c;");
    }
    let mut s = String::from_str("\u{1b}]52;c;");
    let encoded = b64_encode(data);
    s.append(encoded.as_str());
    push_char(&mut s, '\u{7}');
    proof {
        assert(s@ =~= osc52_text(data@));
    }
    s
}

} // verus!
