//! The sweep position and the production of minimal styled runs.
//!
//! A phase in [0, 1), given in parts per billion, is mapped to an integer
//! sweep center on a virtual axis that extends the text by the padding on
//! both sides. Each character's style follows from its distance to that
//! center; consecutive characters with the same exact style are merged into
//! one run, so the output is the minimal ordered run sequence whose
//! fragments concatenate back to the input text.

use vstd::prelude::*;

use crate::intensity::{base_rgb_of, spec_base_rgb, spec_char_style, style_for_char};
use crate::style::{runs_model, ShimmerStyle, StyledRun};
use crate::SHIMMER_PADDING;

verus! {

/// The length of the virtual axis the sweep travels: the characters plus the
/// padding before and after.
pub open spec fn spec_period(char_count: int) -> int {
    char_count + 2 * SHIMMER_PADDING
}

/// The sweep center for a phase in parts per billion: the phase is reduced
/// modulo one whole unit, then scaled onto the virtual axis and rounded
/// down.
pub open spec fn spec_sweep_center(phase_ppb: int, char_count: int) -> int {
    (phase_ppb % 1_000_000_000) * spec_period(char_count) / 1_000_000_000
}

/// The styles of all characters of a text of length `len`, for one sweep
/// center.
pub open spec fn spec_styles(
    len: nat,
    base: ShimmerStyle,
    true_color: bool,
    pos: int,
) -> Seq<ShimmerStyle> {
    Seq::new(len, |i: int| spec_char_style(base, true_color, pos, i))
}

/// The run decomposition of a text whose characters carry the given styles:
/// contiguous fragments of one style, in text order, each extended as far as
/// the style repeats.
pub open spec fn spec_compact(
    text: Seq<char>,
    styles: Seq<ShimmerStyle>,
) -> Seq<(Seq<char>, ShimmerStyle)>
    decreases text.len(),
{
    if text.len() == 0 {
        Seq::empty()
    } else {
        let rest = spec_compact(text.drop_last(), styles.drop_last());
        let c = text.last();
        let st = styles.last();
        if rest.len() > 0 && rest.last().1 == st {
            rest.update(rest.len() - 1, (rest.last().0.push(c), st))
        } else {
            rest.push((seq![c], st))
        }
    }
}

/// The concatenation of the text fragments of a run sequence.
pub open spec fn concat_frags(runs: Seq<(Seq<char>, ShimmerStyle)>) -> Seq<char>
    decreases runs.len(),
{
    if runs.len() == 0 {
        Seq::empty()
    } else {
        concat_frags(runs.drop_last()) + runs.last().0
    }
}

/// The whole pipeline: sweep center from the phase, a style per character,
/// runs compacted.
pub open spec fn spec_shimmer_runs(
    text: Seq<char>,
    base: ShimmerStyle,
    true_color: bool,
    phase_ppb: int,
) -> Seq<(Seq<char>, ShimmerStyle)> {
    spec_compact(
        text,
        spec_styles(
            text.len(),
            base,
            true_color,
            spec_sweep_center(phase_ppb, text.len() as int),
        ),
    )
}

/// Concatenating the fragments of the run decomposition yields the text
/// back, character for character.
pub proof fn lemma_compact_reassembles(text: Seq<char>, styles: Seq<ShimmerStyle>)
    requires
        text.len() == styles.len(),
    ensures
        concat_frags(spec_compact(text, styles)) == text,
    decreases text.len(),
{
    if text.len() == 0 {
        assert(concat_frags(spec_compact(text, styles)) =~= text);
    } else {
        let prefix = text.drop_last();
        let sprefix = styles.drop_last();
        lemma_compact_reassembles(prefix, sprefix);
        let rest = spec_compact(prefix, sprefix);
        let c = text.last();
        let st = styles.last();
        if rest.len() > 0 && rest.last().1 == st {
            let updated = rest.update(rest.len() - 1, (rest.last().0.push(c), st));
            assert(updated.drop_last() =~= rest.drop_last());
            assert(concat_frags(updated) == concat_frags(rest.drop_last()) + rest.last().0.push(
                c,
            ));
            assert(concat_frags(rest.drop_last()) + rest.last().0 == prefix);
            assert(concat_frags(rest.drop_last()) + rest.last().0.push(c) =~= (concat_frags(
                rest.drop_last(),
            ) + rest.last().0).push(c));
            assert(prefix.push(c) =~= text);
            assert(concat_frags(updated) == text);
        } else {
            let pushed = rest.push((seq![c], st));
            assert(pushed.drop_last() =~= rest);
            assert(concat_frags(pushed) == concat_frags(rest) + seq![c]);
            assert(concat_frags(pushed) =~= text);
        }
    }
}

/// The shape of the run decomposition: it is empty exactly for empty text,
/// every fragment is non-empty, and no two adjacent runs share a style.
pub proof fn lemma_compact_shape(text: Seq<char>, styles: Seq<ShimmerStyle>)
    requires
        text.len() == styles.len(),
    ensures
        spec_compact(text, styles).len() == 0 <==> text.len() == 0,
        forall|i: int|
            0 <= i < spec_compact(text, styles).len() ==> (#[trigger] spec_compact(
                text,
                styles,
            )[i]).0.len() > 0,
        forall|i: int|
            1 <= i < spec_compact(text, styles).len() ==> (#[trigger] spec_compact(
                text,
                styles,
            )[i]).1 != spec_compact(text, styles)[i - 1].1,
    decreases text.len(),
{
    if text.len() > 0 {
        let prefix = text.drop_last();
        let sprefix = styles.drop_last();
        lemma_compact_shape(prefix, sprefix);
        let rest = spec_compact(prefix, sprefix);
        let full = spec_compact(text, styles);
        let c = text.last();
        let st = styles.last();
        if rest.len() > 0 && rest.last().1 == st {
            assert(full == rest.update(rest.len() - 1, (rest.last().0.push(c), st)));
            assert forall|i: int| 0 <= i < full.len() implies (#[trigger] full[i]).0.len()
                > 0 by {
                if i < rest.len() - 1 {
                    assert(full[i] == rest[i]);
                }
            }
            assert forall|i: int| 1 <= i < full.len() implies (#[trigger] full[i]).1 != full[i
                - 1].1 by {
                assert(full[i].1 == rest[i].1);
                assert(full[i - 1].1 == rest[i - 1].1);
            }
        } else {
            assert(full == rest.push((seq![c], st)));
            assert(seq![c].len() == 1);
            assert forall|i: int| 0 <= i < full.len() implies (#[trigger] full[i]).0.len()
                > 0 by {
                if i < rest.len() {
                    assert(full[i] == rest[i]);
                }
            }
            assert forall|i: int| 1 <= i < full.len() implies (#[trigger] full[i]).1 != full[i
                - 1].1 by {
                if i < rest.len() {
                    assert(full[i] == rest[i]);
                    assert(full[i - 1] == rest[i - 1]);
                }
            }
        }
    }
}

/// Advancing the phase by one whole unit leaves the output unchanged: the
/// sweep wraps around.
pub proof fn lemma_phase_wraps(
    text: Seq<char>,
    base: ShimmerStyle,
    true_color: bool,
    phase_ppb: int,
)
    ensures
        spec_shimmer_runs(text, base, true_color, phase_ppb + 1_000_000_000)
            == spec_shimmer_runs(text, base, true_color, phase_ppb),
{
    vstd::arithmetic::div_mod::lemma_mod_add_multiples_vanish(phase_ppb, 1_000_000_000);
}

proof fn lemma_runs_model_push(runs: Seq<StyledRun>, run: StyledRun)
    ensures
        runs_model(runs.push(run)) == runs_model(runs).push((run.text@, run.style)),
{
    assert(runs_model(runs.push(run)) =~= runs_model(runs).push((run.text@, run.style)));
}

/// One sweep period of the time-driven phase source, in microseconds.
pub const SWEEP_PERIOD_MICROS: u64 = 2_000_000;

/// The phase of the time-driven sweep: the elapsed time since first use,
/// reduced modulo the sweep period and scaled to parts per billion.
pub fn phase_ppb_from_elapsed_micros(elapsed_micros: u128) -> (phase_ppb: u64)
    ensures
        phase_ppb as int == (elapsed_micros as int % (SWEEP_PERIOD_MICROS as int)) * 500,
        phase_ppb < 1_000_000_000,
{
    let in_period: u64 = (elapsed_micros % 2_000_000) as u64;
    in_period * 500
}

/// Maps the phase onto the virtual axis: the integer position of the sweep
/// center, always within the period.
pub fn sweep_center(phase_ppb: u64, char_count: usize) -> (pos: usize)
    requires
        char_count <= usize::MAX - 2 * SHIMMER_PADDING,
    ensures
        pos as int == spec_sweep_center(phase_ppb as int, char_count as int),
        (pos as int) < spec_period(char_count as int),
{
    let reduced: u64 = phase_ppb % 1_000_000_000;
    let period: u128 = (char_count as u128) + 20;
    proof {
        vstd::arithmetic::mul::lemma_mul_upper_bound(
            reduced as int,
            999_999_999,
            period as int,
            u64::MAX as int + 20,
        );
    }
    let product: u128 = (reduced as u128) * period;
    let center: u128 = product / 1_000_000_000;
    proof {
        vstd::arithmetic::mul::lemma_mul_strict_inequality(
            reduced as int,
            1_000_000_000,
            period as int,
        );
        vstd::arithmetic::div_mod::lemma_multiply_divide_lt(
            product as int,
            1_000_000_000,
            period as int,
        );
    }
    center as usize
}

/// Produces the minimal styled runs for a sweep center already mapped onto
/// the virtual axis: one style per character, consecutive equal styles
/// merged.
pub fn shimmer_runs_at_pos(
    text: &Vec<char>,
    base_style: &ShimmerStyle,
    pos: usize,
    true_color: bool,
) -> (runs: Vec<StyledRun>)
    requires
        text@.len() <= usize::MAX - 2 * SHIMMER_PADDING,
    ensures
        runs_model(runs@) == spec_compact(
            text@,
            spec_styles(text@.len(), *base_style, true_color, pos as int),
        ),
        concat_frags(runs_model(runs@)) == text@,
        runs@.len() == 0 <==> text@.len() == 0,
        forall|i: int|
            1 <= i < runs@.len() ==> (#[trigger] runs@[i]).style != runs@[i - 1].style,
{
    let ghost styles = spec_styles(text@.len(), *base_style, true_color, pos as int);
    let n = text.len();
    let base_rgb = base_rgb_of(base_style);
    let mut runs: Vec<StyledRun> = Vec::new();
    let mut buf: Vec<char> = Vec::new();
    let mut cur = ShimmerStyle { fg: None, bold: false, dim: false };
    let mut i: usize = 0;
    while i < n
        invariant
            n == text@.len(),
            n <= usize::MAX - 2 * SHIMMER_PADDING,
            i <= n,
            base_rgb == spec_base_rgb(*base_style),
            styles == spec_styles(text@.len(), *base_style, true_color, pos as int),
            i == 0 ==> runs@.len() == 0 && buf@.len() == 0,
            i > 0 ==> buf@.len() > 0 && cur == styles[i - 1],
            i > 0 ==> runs_model(runs@).push((buf@, cur)) == spec_compact(
                text@.subrange(0, i as int),
                styles.subrange(0, i as int),
            ),
        decreases n - i,
    {
        let st = style_for_char(base_style, base_rgb, true_color, pos, i);
        let c = text[i];
        proof {
            assert(st == styles[i as int]);
            assert(text@.subrange(0, i + 1).drop_last() =~= text@.subrange(0, i as int));
            assert(styles.subrange(0, i + 1).drop_last() =~= styles.subrange(0, i as int));
            assert(text@.subrange(0, i + 1).last() == c);
            assert(styles.subrange(0, i + 1).last() == st);
        }
        if i > 0 && cur == st {
            let ghost old_buf = buf@;
            buf.push(c);
            proof {
                let rest = spec_compact(
                    text@.subrange(0, i as int),
                    styles.subrange(0, i as int),
                );
                assert(rest == runs_model(runs@).push((old_buf, cur)));
                assert(rest.last() == (old_buf, cur));
                assert(spec_compact(text@.subrange(0, i + 1), styles.subrange(0, i + 1))
                    == rest.update(rest.len() - 1, (old_buf.push(c), st)));
                assert(rest.update(rest.len() - 1, (old_buf.push(c), st)) =~= runs_model(
                    runs@,
                ).push((buf@, cur)));
            }
        } else {
            let ghost old_runs = runs@;
            let ghost old_buf = buf@;
            let ghost old_cur = cur;
            if i > 0 {
                let ghost flushed = StyledRun { text: buf, style: cur };
                let done = StyledRun { text: buf, style: cur };
                runs.push(done);
                buf = Vec::new();
                proof {
                    lemma_runs_model_push(old_runs, flushed);
                }
            }
            buf.push(c);
            cur = st;
            proof {
                if i == 0 {
                    assert(runs_model(runs@) =~= Seq::<(Seq<char>, ShimmerStyle)>::empty());
                    assert(text@.subrange(0, 0).len() == 0);
                    assert(spec_compact(text@.subrange(0, 0), styles.subrange(0, 0))
                        =~= Seq::<(Seq<char>, ShimmerStyle)>::empty());
                }
                let rest = spec_compact(
                    text@.subrange(0, i as int),
                    styles.subrange(0, i as int),
                );
                assert(rest == runs_model(runs@));
                if rest.len() > 0 {
                    assert(rest.last() == (old_buf, old_cur));
                    assert(old_cur != st);
                }
                assert(buf@ =~= seq![c]);
                assert(spec_compact(text@.subrange(0, i + 1), styles.subrange(0, i + 1))
                    == rest.push((seq![c], st)));
                assert(rest.push((seq![c], st)) == runs_model(runs@).push((buf@, cur)));
            }
        }
        i = i + 1;
    }
    if n > 0 {
        let ghost old_runs = runs@;
        let ghost last_run = StyledRun { text: buf, style: cur };
        let done = StyledRun { text: buf, style: cur };
        runs.push(done);
        proof {
            lemma_runs_model_push(old_runs, last_run);
        }
    }
    proof {
        assert(text@.subrange(0, n as int) =~= text@);
        assert(styles.subrange(0, n as int) =~= styles);
        if n == 0 {
            assert(runs_model(runs@) =~= Seq::<(Seq<char>, ShimmerStyle)>::empty());
        }
        lemma_compact_reassembles(text@, styles);
        lemma_compact_shape(text@, styles);
        assert forall|i: int| 1 <= i < runs@.len() implies (#[trigger] runs@[i]).style
            != runs@[i - 1].style by {
            assert(runs_model(runs@)[i].1 == runs@[i].style);
            assert(runs_model(runs@)[i - 1].1 == runs@[i - 1].style);
        }
    }
    runs
}

/// Produces the minimal styled runs for a text, base style and phase, the
/// phase given in parts per billion and reduced modulo one whole unit.
pub fn shimmer_runs_at_phase_ppb(
    text: &Vec<char>,
    base_style: &ShimmerStyle,
    phase_ppb: u64,
    true_color: bool,
) -> (runs: Vec<StyledRun>)
    requires
        text@.len() <= usize::MAX - 2 * SHIMMER_PADDING,
    ensures
        runs_model(runs@) == spec_shimmer_runs(text@, *base_style, true_color, phase_ppb as int),
        concat_frags(runs_model(runs@)) == text@,
        runs@.len() == 0 <==> text@.len() == 0,
        forall|i: int|
            1 <= i < runs@.len() ==> (#[trigger] runs@[i]).style != runs@[i - 1].style,
{
    let pos = sweep_center(phase_ppb, text.len());
    shimmer_runs_at_pos(text, base_style, pos, true_color)
}

} // verus!
