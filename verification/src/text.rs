//! Verified helpers for working with strings: decimal rendering and parsing,
//! equality, splitting on spaces, and character lookup.
use vstd::prelude::*;

verus! {

/// The character for a single decimal digit.
pub open spec fn digit_char(d: nat) -> char {
    if d == 0 {
        '0'
    } else if d == 1 {
        '1'
    } else if d == 2 {
        '2'
    } else if d == 3 {
        '3'
    } else if d == 4 {
        '4'
    } else if d == 5 {
        '5'
    } else if d == 6 {
        '6'
    } else if d == 7 {
        '7'
    } else if d == 8 {
        '8'
    } else {
        '9'
    }
}

/// The decimal rendering of a natural number, most significant digit first.
pub open spec fn dec_digits(n: nat) -> Seq<char>
    decreases n,
{
    if n < 10 {
        seq![digit_char(n)]
    } else {
        dec_digits(n / 10).push(digit_char(n % 10))
    }
}

/// Whether a character is a decimal digit.
pub open spec fn is_digit(c: char) -> bool {
    '0' <= c <= '9'
}

/// The numeric value of a digit character.
pub open spec fn digit_val(c: char) -> nat {
    (c as nat - '0' as nat) as nat
}

/// Whether every character of the sequence is a decimal digit.
pub open spec fn all_digits(s: Seq<char>) -> bool {
    forall|i: int| 0 <= i < s.len() ==> is_digit(#[trigger] s[i])
}

/// The value of a sequence of digit characters, read in base ten.
pub open spec fn dec_val(s: Seq<char>) -> nat
    decreases s.len(),
{
    if s.len() == 0 {
        0
    } else {
        dec_val(s.drop_last()) * 10 + digit_val(s.last())
    }
}

/// What `parse_usize` returns: the value of a non-empty run of digits, with
/// one optional leading plus sign, when the value fits in `usize`; nothing
/// otherwise.
pub open spec fn parse_usize_spec(s: Seq<char>) -> Option<usize> {
    let digits = if s.len() > 0 && s[0] == '+' {
        s.drop_first()
    } else {
        s
    };
    if digits.len() > 0 && all_digits(digits) && dec_val(digits) <= usize::MAX {
        Some(dec_val(digits) as usize)
    } else {
        None
    }
}

/// Rendering a value and reading it back gives the value itself.
pub proof fn lemma_dec_digits_val(n: nat)
    ensures
        dec_val(dec_digits(n)) == n,
        all_digits(dec_digits(n)),
        dec_digits(n).len() >= 1,
    decreases n,
{
    if n < 10 {
        let s = dec_digits(n);
        assert(s =~= seq![digit_char(n)]);
        assert(s.drop_last() =~= Seq::<char>::empty());
        assert(dec_val(s) == dec_val(s.drop_last()) * 10 + digit_val(s.last()));
        assert(dec_val(s.drop_last()) == 0);
        assert(digit_val(digit_char(n)) == n);
    } else {
        lemma_dec_digits_val(n / 10);
        let s = dec_digits(n);
        assert(s =~= dec_digits(n / 10).push(digit_char(n % 10)));
        assert(s.drop_last() =~= dec_digits(n / 10));
        assert(s.last() == digit_char(n % 10));
        assert(digit_val(digit_char(n % 10)) == n % 10);
        assert(dec_val(s) == (n / 10) * 10 + n % 10);
        assert((n / 10) * 10 + n % 10 == n) by (nonlinear_arith);
    }
}

/// Two distinct values never render to the same digit string.
pub proof fn lemma_dec_digits_injective(m: nat, n: nat)
    requires
        m != n,
    ensures
        dec_digits(m) != dec_digits(n),
{
    lemma_dec_digits_val(m);
    lemma_dec_digits_val(n);
}

/// Turns a digit into its character.
fn digit_to_char(d: usize) -> (c: char)
    requires
        d < 10,
    ensures
        c == digit_char(d as nat),
{
    proof {
        reveal_strlit("0123456789");
    }
    let s: &str = "0123456789";
    s.get_char(d)
}

/// Relies on `String::push` of std: appends one character to the string.
#[verifier::external_body]
pub(crate) fn push_char(s: &mut String, c: char)
    ensures
        final(s)@ == old(s)@.push(c),
{
    s.push(c)
}

/// Renders a `usize` in decimal.
pub fn usize_to_string(n: usize) -> (s: String)
    ensures
        s@ == dec_digits(n as nat),
    decreases n,
{
    if n < 10 {
        let mut s = String::new();
        push_char(&mut s, digit_to_char(n));
        proof {
            assert(s@ =~= dec_digits(n as nat));
        }
        s
    } else {
        let mut s = usize_to_string(n / 10);
        push_char(&mut s, digit_to_char(n % 10));
        s
    }
}

/// Renders a `u64` in decimal.
pub fn u64_to_string(n: u64) -> (s: String)
    ensures
        s@ == dec_digits(n as nat),
    decreases n,
{
    if n < 10 {
        let mut s = String::new();
        push_char(&mut s, digit_to_char((n % 10) as usize));
        proof {
            assert(s@ =~= dec_digits(n as nat));
        }
        s
    } else {
        let mut s = u64_to_string(n / 10);
        push_char(&mut s, digit_to_char((n % 10) as usize));
        s
    }
}

/// Whether two string slices hold the same characters.
pub fn str_eq(a: &str, b: &str) -> (r: bool)
    ensures
        r == (a@ == b@),
{
    let sa = a.to_owned();
    let sb = b.to_owned();
    sa == sb
}

/// Parses a decimal `usize`; rejects anything but an optional leading plus
/// sign followed by a non-empty run of digits whose value fits.
pub fn parse_usize(s: &str) -> (r: Option<usize>)
    ensures
        r == parse_usize_spec(s@),
{
    let n = s.unicode_len();
    let start: usize = if n > 0 && s.get_char(0) == '+' {
        1
    } else {
        0
    };
    let ghost digits = if start == 1 {
        s@.drop_first()
    } else {
        s@
    };
    proof {
        assert(digits =~= s@.subrange(start as int, n as int));
    }
    if n == start {
        return None;
    }
    let mut value: usize = 0;
    let mut i: usize = start;
    while i < n
        invariant
            start <= i <= n == s@.len(),
            start < n,
            start == (if s@.len() > 0 && s@[0] == '+' {
                1int
            } else {
                0int
            }),
            digits == (if s@.len() > 0 && s@[0] == '+' {
                s@.drop_first()
            } else {
                s@
            }),
            digits =~= s@.subrange(start as int, n as int),
            all_digits(digits.subrange(0, i - start)),
            value == dec_val(digits.subrange(0, i - start)),
            dec_val(digits.subrange(0, i - start)) <= usize::MAX,
        decreases n - i,
    {
        let c = s.get_char(i);
        proof {
            assert(digits[i - start] == s@[i as int]);
        }
        if c < '0' || c > '9' {
            proof {
                assert(!all_digits(digits));
            }
            return None;
        }
        let d: usize = (c as u32 as usize) - ('0' as u32 as usize);
        proof {
            assert(digits.subrange(0, i + 1 - start).drop_last() =~= digits.subrange(
                0,
                i - start,
            ));
            assert(digits.subrange(0, i + 1 - start).last() == c);
        }
        if value > (usize::MAX - d) / 10 {
            proof {
                let t = digits.subrange(0, i + 1 - start);
                assert(dec_val(t) == value * 10 + d);
                assert(value * 10 + d > usize::MAX) by (nonlinear_arith)
                    requires
                        value > (usize::MAX - d) / 10,
                        d < 10,
                ;
                lemma_dec_val_monotone(digits, i + 1 - start);
            }
            return None;
        }
        proof {
            assert(value * 10 + d <= usize::MAX) by (nonlinear_arith)
                requires
                    value <= (usize::MAX - d) / 10,
                    d < 10,
            ;
        }
        value = value * 10 + d;
        i = i + 1;
    }
    proof {
        assert(digits.subrange(0, n - start) =~= digits);
    }
    Some(value)
}

/// A longer digit prefix never has a smaller value.
proof fn lemma_dec_val_monotone(s: Seq<char>, i: int)
    requires
        0 <= i <= s.len(),
    ensures
        dec_val(s) >= dec_val(s.subrange(0, i)),
    decreases s.len() - i,
{
    if i < s.len() {
        lemma_dec_val_monotone(s, i + 1);
        let t = s.subrange(0, i + 1);
        assert(t.drop_last() =~= s.subrange(0, i));
        assert(dec_val(t) == dec_val(s.subrange(0, i)) * 10 + digit_val(t.last()));
        assert(dec_val(s.subrange(0, i)) * 10 >= dec_val(s.subrange(0, i))) by (nonlinear_arith);
    } else {
        assert(s.subrange(0, i) =~= s);
    }
}

/// The index of the first space in the sequence, if any.
pub open spec fn first_space(s: Seq<char>) -> Option<int>
    decreases s.len(),
{
    if s.len() == 0 {
        None
    } else if s[0] == ' ' {
        Some(0)
    } else {
        match first_space(s.drop_first()) {
            Some(i) => Some(i + 1),
            None => None,
        }
    }
}

/// `first_space` names the least index holding a space.
pub proof fn lemma_first_space(s: Seq<char>)
    ensures
        match first_space(s) {
            Some(i) => 0 <= i < s.len() && s[i] == ' ' && forall|j: int|
                0 <= j < i ==> s[j] != ' ',
            None => forall|j: int| 0 <= j < s.len() ==> s[j] != ' ',
        },
    decreases s.len(),
{
    if s.len() > 0 && s[0] != ' ' {
        let t = s.drop_first();
        lemma_first_space(t);
        assert(forall|j: int| 0 <= j < t.len() ==> t[j] == s[j + 1]);
        match first_space(t) {
            Some(i) => {
                assert(first_space(s) == Some(i + 1));
                assert(s[i + 1] == t[i]);
                assert forall|j: int| 0 <= j < i + 1 implies s[j] != ' ' by {
                    if j > 0 {
                        assert(s[j] == t[j - 1]);
                    }
                }
            },
            None => {
                assert forall|j: int| 0 <= j < s.len() implies s[j] != ' ' by {
                    if j > 0 {
                        assert(s[j] == t[j - 1]);
                    }
                }
            },
        }
    }
}

/// Splits a command line at its first space: the head and the rest. A line
/// without a space is all head, with an empty rest.
pub fn split_first_space<'a>(s: &'a str) -> (r: (&'a str, &'a str))
    ensures
        match first_space(s@) {
            Some(i) => r.0@ == s@.subrange(0, i) && r.1@ == s@.subrange(i + 1, s@.len() as int),
            None => r.0@ == s@ && r.1@ == Seq::<char>::empty(),
        },
{
    proof {
        lemma_first_space(s@);
    }
    let n = s.unicode_len();
    let mut i: usize = 0;
    while i < n
        invariant
            0 <= i <= n == s@.len(),
            forall|j: int| 0 <= j < i ==> s@[j] != ' ',
            first_space(s@) matches Some(k) ==> i <= k,
        decreases n - i,
    {
        if s.get_char(i) == ' ' {
            proof {
                lemma_first_space(s@);
                match first_space(s@) {
                    Some(k) => {
                        assert(s@[i as int] == ' ');
                        assert(k >= i);
                        assert(k == i);
                    },
                    None => {
                        assert(s@[i as int] == ' ');
                        assert(false);
                    },
                }
            }
            let head = s.substring_char(0, i);
            let rest = s.substring_char(i + 1, n);
            return (head, rest);
        }
        proof {
            lemma_first_space(s@);
            if let Some(k) = first_space(s@) {
                assert(s@[i as int] != ' ');
                assert(k != i);
            }
        }
        i = i + 1;
    }
    proof {
        lemma_first_space(s@);
        assert(first_space(s@) is None);
        assert(s@.subrange(0, n as int) =~= s@);
    }
    (s, s.substring_char(n, n))
}

/// The words of a sequence: maximal runs of non-space characters, in order,
/// with empty runs dropped.
pub open spec fn space_words(s: Seq<char>) -> Seq<Seq<char>>
    decreases s.len(),
{
    if s.len() == 0 {
        Seq::empty()
    } else {
        match first_space(s) {
            Some(i) => if 0 <= i < s.len() {
                let head = s.subrange(0, i);
                let tail = space_words(s.subrange(i + 1, s.len() as int));
                if head.len() == 0 {
                    tail
                } else {
                    seq![head] + tail
                }
            } else {
                seq![s]
            },
            None => seq![s],
        }
    }
}

/// Splits on single spaces and drops the empty pieces.
pub fn split_spaces(s: &str) -> (r: Vec<String>)
    ensures
        r.deep_view() == space_words(s@),
    decreases s@.len(),
{
    let n = s.unicode_len();
    if n == 0 {
        let r: Vec<String> = Vec::new();
        proof {
            assert(r.deep_view() =~= space_words(s@));
        }
        return r;
    }
    let (head, rest) = split_first_space(s);
    proof {
        lemma_first_space(s@);
    }
    match first_space_exec(s) {
        Some(_i) => {
            let mut r: Vec<String> = Vec::new();
            if head.unicode_len() > 0 {
                r.push(head.to_owned());
            }
            let mut tail = split_spaces(rest);
            r.append(&mut tail);
            proof {
                assert(r.deep_view() =~= space_words(s@));
            }
            r
        },
        None => {
            let mut r: Vec<String> = Vec::new();
            r.push(head.to_owned());
            proof {
                assert(r.deep_view() =~= space_words(s@));
            }
            r
        },
    }
}

/// Finds the first space, as an index.
pub fn first_space_exec(s: &str) -> (r: Option<usize>)
    ensures
        match r {
            Some(i) => first_space(s@) == Some(i as int),
            None => first_space(s@) is None,
        },
{
    proof {
        lemma_first_space(s@);
    }
    let n = s.unicode_len();
    let mut i: usize = 0;
    while i < n
        invariant
            0 <= i <= n == s@.len(),
            forall|j: int| 0 <= j < i ==> s@[j] != ' ',
            first_space(s@) matches Some(k) ==> i <= k,
        decreases n - i,
    {
        if s.get_char(i) == ' ' {
            proof {
                lemma_first_space(s@);
                if let Some(k) = first_space(s@) {
                    assert(k == i);
                } else {
                    assert(s@[i as int] == ' ');
                    assert(false);
                }
            }
            return Some(i);
        }
        proof {
            lemma_first_space(s@);
            if let Some(k) = first_space(s@) {
                assert(s@[i as int] != ' ');
                assert(k != i);
            }
        }
        i = i + 1;
    }
    proof {
        lemma_first_space(s@);
    }
    None
}

} // verus!
