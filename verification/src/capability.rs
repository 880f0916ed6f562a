//! The true-color capability decision.
//!
//! The decision is a pure function of four environment values, read once per
//! process by the caller and handed in here as plain values, in this
//! precedence order: an explicit disable signal wins, then an explicit force
//! signal, then an explicit basic-color signal, and last the color-term
//! description, which enables true color when it names "truecolor" or
//! "24bit" in any letter case. The needles are plain ASCII, so letter case
//! is folded by mapping ASCII uppercase onto lowercase.

use vstd::prelude::*;

verus! {

/// Whether `a` equals `b` up to ASCII letter case, for a lowercase `b`.
pub open spec fn spec_char_eq_ci(a: char, b: char) -> bool {
    a == b || ('A' <= a && a <= 'Z' && a as u32 + 32 == b as u32)
}

/// Whether `needle` matches `hay` at offset `k`, up to ASCII letter case.
pub open spec fn spec_matches_ci_at(hay: Seq<char>, needle: Seq<char>, k: int) -> bool {
    forall|j: int| 0 <= j < needle.len() ==> spec_char_eq_ci(hay[k + j], #[trigger] needle[j])
}

/// Whether `needle` occurs in `hay` at some offset, up to ASCII letter case.
pub open spec fn spec_contains_ci(hay: Seq<char>, needle: Seq<char>) -> bool {
    exists|k: int|
        0 <= k && k + needle.len() <= hay.len() && #[trigger] spec_matches_ci_at(hay, needle, k)
}

/// The characters of "truecolor".
pub open spec fn truecolor_needle() -> Seq<char> {
    seq!['t', 'r', 'u', 'e', 'c', 'o', 'l', 'o', 'r']
}

/// The characters of "24bit".
pub open spec fn bit24_needle() -> Seq<char> {
    seq!['2', '4', 'b', 'i', 't']
}

/// Whether a color-term description enables true color: it names "truecolor"
/// or "24bit" in any letter case.
pub open spec fn spec_colorterm_enables(value: Seq<char>) -> bool {
    spec_contains_ci(value, truecolor_needle()) || spec_contains_ci(value, bit24_needle())
}

/// The view of an optional environment value: its characters, if set.
pub open spec fn opt_chars(value: Option<Vec<char>>) -> Option<Seq<char>> {
    match value {
        Some(v) => Some(v@),
        None => None,
    }
}

/// The capability decision over the four environment values: `NO_COLOR`
/// present disables; `CLICOLOR_FORCE` set to anything but "0" enables;
/// `CLICOLOR` set to "0" disables; otherwise `COLORTERM` decides.
pub open spec fn spec_supports_true_color(
    no_color: bool,
    clicolor_force: Option<Seq<char>>,
    clicolor: Option<Seq<char>>,
    colorterm: Option<Seq<char>>,
) -> bool {
    if no_color {
        false
    } else if clicolor_force matches Some(value) && value != seq!['0'] {
        true
    } else if clicolor matches Some(value) && value == seq!['0'] {
        false
    } else {
        colorterm matches Some(value) && spec_colorterm_enables(value)
    }
}

fn char_eq_ci(a: char, b: char) -> (eq: bool)
    ensures
        eq == spec_char_eq_ci(a, b),
{
    a == b || ('A' <= a && a <= 'Z' && a as u32 + 32 == b as u32)
}

/// Whether `needle` occurs in `hay` at some offset, up to ASCII letter case,
/// for a lowercase ASCII `needle`.
fn contains_ci(hay: &Vec<char>, needle: &Vec<char>) -> (found: bool)
    ensures
        found == spec_contains_ci(hay@, needle@),
{
    if needle.len() > hay.len() {
        assert(!spec_contains_ci(hay@, needle@));
        return false;
    }
    if needle.len() == 0 {
        assert(spec_matches_ci_at(hay@, needle@, 0));
        return true;
    }
    let bound = hay.len() - needle.len();
    let mut k: usize = 0;
    while k <= bound
        invariant
            1 <= needle@.len() <= hay@.len(),
            hay@.len() <= usize::MAX,
            bound == hay@.len() - needle@.len(),
            k <= bound + 1,
            forall|k0: int| 0 <= k0 < k ==> !spec_matches_ci_at(hay@, needle@, k0),
        decreases bound + 1 - k,
    {
        let mut j: usize = 0;
        let mut all_match = true;
        while j < needle.len()
            invariant
                needle@.len() <= hay@.len(),
                hay@.len() <= usize::MAX,
                k <= hay@.len() - needle@.len(),
                j <= needle@.len(),
                all_match == forall|j0: int|
                    0 <= j0 < j ==> spec_char_eq_ci(hay@[k + j0], #[trigger] needle@[j0]),
            decreases needle@.len() - j,
        {
            if !char_eq_ci(hay[k + j], needle[j]) {
                all_match = false;
                assert(!spec_char_eq_ci(hay@[k + j], needle@[j as int]));
            }
            j = j + 1;
        }
        if all_match {
            assert(spec_matches_ci_at(hay@, needle@, k as int));
            return true;
        }
        assert(!spec_matches_ci_at(hay@, needle@, k as int));
        k = k + 1;
    }
    assert(forall|k0: int|
        0 <= k0 && k0 + needle@.len() <= hay@.len() ==> !spec_matches_ci_at(
            hay@,
            needle@,
            k0,
        ));
    false
}

fn make_truecolor_needle() -> (needle: Vec<char>)
    ensures
        needle@ == truecolor_needle(),
{
    let mut needle: Vec<char> = Vec::new();
    needle.push('t');
    needle.push('r');
    needle.push('u');
    needle.push('e');
    needle.push('c');
    needle.push('o');
    needle.push('l');
    needle.push('o');
    needle.push('r');
    assert(needle@ =~= truecolor_needle());
    needle
}

fn make_bit24_needle() -> (needle: Vec<char>)
    ensures
        needle@ == bit24_needle(),
{
    let mut needle: Vec<char> = Vec::new();
    needle.push('2');
    needle.push('4');
    needle.push('b');
    needle.push('i');
    needle.push('t');
    assert(needle@ =~= bit24_needle());
    needle
}

/// Whether a color-term description names "truecolor" or "24bit" in any
/// letter case.
pub fn colorterm_enables(value: &Vec<char>) -> (enables: bool)
    ensures
        enables == spec_colorterm_enables(value@),
{
    let truecolor = make_truecolor_needle();
    if contains_ci(value, &truecolor) {
        return true;
    }
    let bit24 = make_bit24_needle();
    contains_ci(value, &bit24)
}

fn is_zero_literal(value: &Vec<char>) -> (zero: bool)
    ensures
        zero == (value@ == seq!['0']),
{
    let zero = value.len() == 1 && value[0] == '0';
    if zero {
        assert(value@ =~= seq!['0']);
    } else {
        assert(value@ != seq!['0']) by {
            if value@.len() == 1 {
                assert(value@[0] != '0');
            }
        }
    }
    zero
}

/// Decides true-color support from the four environment values, in their
/// precedence order. The caller reads the environment once per process and
/// hands the values in; characters are passed as read, letter case is folded
/// here.
pub fn supports_true_color_from_env(
    no_color: bool,
    clicolor_force: &Option<Vec<char>>,
    clicolor: &Option<Vec<char>>,
    colorterm: &Option<Vec<char>>,
) -> (supported: bool)
    ensures
        supported == spec_supports_true_color(
            no_color,
            opt_chars(*clicolor_force),
            opt_chars(*clicolor),
            opt_chars(*colorterm),
        ),
{
    if no_color {
        return false;
    }
    if let Some(value) = clicolor_force {
        if !is_zero_literal(value) {
            return true;
        }
    }
    if let Some(value) = clicolor {
        if is_zero_literal(value) {
            return false;
        }
    }
    if let Some(value) = colorterm {
        colorterm_enables(value)
    } else {
        false
    }
}

} // verus!
