//! The text of a task's display: one line for the section that runs, with
//! a bar where the amount of work is known and a spinner where it is not.

use vstd::prelude::*;
use vstd::string::*;
use vstd::arithmetic::div_mod::*;
use crate::clock::{Timestamp, TIME_STEP};
use crate::entry::SPINNER_LEN;
use crate::permille::{exact_permille, lemma_quotient_below, lemma_split_factor};
use crate::task::AnySection;
use crate::painter::{
    clear_line,
    partial_cell,
    partial_glyph,
    push_clear_line,
    spinner_cell,
    spinner_glyph,
};
use crate::text::{decimal, padded, push_char, push_decimal, push_padded, push_repeated, repeated};

verus! {

/// The largest count that can be multiplied by one thousand in a `u64`.
pub const C1000: u64 = 18446744073709551;

/// The largest count that can be multiplied by one hundred in a `u64`.
pub const C100: u64 = 184467440737095516;

/// The largest count that can be multiplied by ten in a `u64`.
pub const C10: u64 = 1844674407370955161;

/// The width of a section's bar in full cells, before the cell that is
/// filled in part.
pub const BAR_CELLS: usize = 24;

/// Completion of `done` out of `total` in per mille, as a section's bar
/// is drawn from it. The factor of one thousand moves from the count to
/// the total in steps as the count grows, so that no product overflows:
/// the count is multiplied by 1000, 100, 10 or 1, and the total divided by
/// 1, 10, 100 or 1000.
pub open spec fn tiered_measure(done: nat, total: nat) -> nat {
    if done <= C1000 {
        done * 1000 / total
    } else if done <= C100 {
        done * 100 / (total / 10)
    } else if done <= C10 {
        done * 10 / (total / 100)
    } else {
        done / (total / 1000)
    }
}

/// The totals for which the measure of `done` exists: the divisor of its
/// step is not zero.
pub open spec fn measurable(done: nat, total: nat) -> bool {
    if done <= C1000 {
        total >= 1
    } else if done <= C100 {
        total >= 10
    } else if done <= C10 {
        total >= 100
    } else {
        total >= 1000
    }
}

/// Short of the total, the measure exists, is at most 1000, and is the
/// exact per mille or, for the larger counts, at most one above it.
pub proof fn lemma_measure_bounded(done: nat, total: nat)
    requires
        done < total,
    ensures
        measurable(done, total),
        tiered_measure(done, total) <= 1000,
        exact_permille(done, total) <= tiered_measure(done, total) <= exact_permille(done, total)
            + 1,
        done <= C1000 ==> tiered_measure(done, total) == exact_permille(done, total),
{
    if done <= C1000 {
        assert(done * 1000 < 1000 * total) by (nonlinear_arith)
            requires
                done < total,
        ;
        lemma_quotient_below((done * 1000) as int, 1000, total as int);
    } else if done <= C100 {
        lemma_fundamental_div_mod(total as int, 10);
        lemma_split_factor(done, total, 100, 10);
    } else if done <= C10 {
        lemma_fundamental_div_mod(total as int, 100);
        lemma_split_factor(done, total, 10, 100);
    } else {
        lemma_fundamental_div_mod(total as int, 1000);
        lemma_split_factor(done, total, 1, 1000);
        assert(done * 1 == done);
    }
}

/// Completion of `progress`, work done and work in all, in per mille.
/// Short of the total the result is at most 1000: the exact per mille
/// while the product fits in 64 bits, and that or one above it for the
/// larger counts.
pub fn per_mille(progress: (u64, u64)) -> (measure: u64)
    requires
        measurable(progress.0 as nat, progress.1 as nat),
    ensures
        measure == tiered_measure(progress.0 as nat, progress.1 as nat),
        progress.0 < progress.1 ==> {
            &&& measure <= 1000
            &&& exact_permille(progress.0 as nat, progress.1 as nat) <= measure
                <= exact_permille(progress.0 as nat, progress.1 as nat) + 1
            &&& progress.0 <= C1000 ==> measure == exact_permille(
                progress.0 as nat,
                progress.1 as nat,
            )
        },
{
    let done: u64 = progress.0;
    let total: u64 = progress.1;
    proof {
        if done < total {
            lemma_measure_bounded(done as nat, total as nat);
        }
        if done <= C1000 {
            lemma_div_nonincreasing((done * 1000) as int, total as int);
        } else if done <= C100 {
            lemma_div_nonincreasing((done * 100) as int, (total / 10) as int);
        } else if done <= C10 {
            lemma_div_nonincreasing((done * 10) as int, (total / 100) as int);
        }
    }
    if done <= C1000 {
        (done * 1000) / total
    } else if done <= C100 {
        (done * 100) / (total / 10)
    } else if done <= C10 {
        (done * 10) / (total / 100)
    } else {
        done / (total / 1000)
    }
}

/// The gauge of a section: for known work the percentage and the bar, for
/// unknown work the spinner at `counter`. A section whose work is all done
/// shows one hundred per cent and a bar of full cells throughout.
pub open spec fn section_gauge(progress: Option<(u64, u64)>, counter: u8) -> Seq<char> {
    match progress {
        Some((done, total)) => if done == total {
            seq![' ', '1', '0', '0', '%', ' ', '▌'] + repeated('█', 25) + seq!['▐']
        } else {
            let measure = tiered_measure(done as nat, total as nat);
            let steps = measure / 5;
            padded(measure / 10, 2, ' ') + seq!['.'] + decimal(measure % 10) + seq![
                '%',
                ' ',
                '▌',
            ] + repeated('█', steps / 8) + seq![partial_glyph(steps % 8)] + repeated(
                ' ',
                (24 - steps / 8) as nat,
            ) + seq!['▐']
        },
        None => seq!['▌', spinner_glyph(counter as nat), '▐'],
    }
}

/// The line of a running or finished section: a mark, the name, a tab,
/// the gauge, and the duration as `lasted` words it.
pub open spec fn section_line(
    name: Seq<char>,
    progress: Option<(u64, u64)>,
    counter: u8,
    lasted: Seq<char>,
) -> Seq<char> {
    seq![' ', '▐', ' '] + name + seq!['\t'] + section_gauge(progress, counter) + seq![' ']
        + lasted + clear_line() + seq!['\n']
}

/// The line where no section runs: it is cleared and ended.
pub open spec fn empty_line() -> Seq<char> {
    clear_line() + seq!['\n']
}

/// Whether the gauge of `progress` can be drawn: the measure exists and
/// stays short of 1000 until the work is all done.
pub open spec fn drawable(progress: Option<(u64, u64)>) -> bool {
    progress matches Some((done, total)) ==> done == total || (measurable(
        done as nat,
        total as nat,
    ) && tiered_measure(done as nat, total as nat) < 1000)
}

/// Whether the gauge of `progress` can be drawn.
pub fn is_drawable(progress: Option<(u64, u64)>) -> (fits: bool)
    ensures
        fits == drawable(progress),
{
    match progress {
        Some((done, total)) => {
            if done == total {
                true
            } else {
                let exists: bool = if done <= C1000 {
                    total >= 1
                } else if done <= C100 {
                    total >= 10
                } else if done <= C10 {
                    total >= 100
                } else {
                    total >= 1000
                };
                exists && per_mille((done, total)) < 1000
            }
        },
        None => true,
    }
}

/// Appends the gauge of a section.
pub fn push_section_gauge(out: &mut String, progress: Option<(u64, u64)>, counter: u8)
    requires
        counter < SPINNER_LEN,
        drawable(progress),
    ensures
        final(out)@ == old(out)@ + section_gauge(progress, counter),
{
    match progress {
        Some((done, total)) => {
            if done == total {
                push_char(out, ' ');
                push_char(out, '1');
                push_char(out, '0');
                push_char(out, '0');
                push_char(out, '%');
                push_char(out, ' ');
                push_char(out, '▌');
                push_repeated(out, '█', BAR_CELLS + 1);
            } else {
                let measure: u64 = per_mille((done, total));
                let steps: u64 = measure / 5;
                let chars: usize = (steps / 8) as usize;
                push_padded(out, measure / 10, 2, ' ');
                push_char(out, '.');
                push_decimal(out, measure % 10);
                push_char(out, '%');
                push_char(out, ' ');
                push_char(out, '▌');
                push_repeated(out, '█', chars);
                push_char(out, partial_cell((steps % 8) as u8));
                push_repeated(out, ' ', BAR_CELLS - chars);
            }
            push_char(out, '▐');
        },
        None => {
            push_char(out, '▌');
            push_char(out, spinner_cell(counter));
            push_char(out, '▐');
        },
    }
}

/// The line of a section named `name` with work `progress`, at frame
/// `counter` of the spinner, which has lasted what `lasted` says.
pub fn render_section(name: &str, progress: Option<(u64, u64)>, counter: u8, lasted: &str) -> (line:
    String)
    requires
        counter < SPINNER_LEN,
        drawable(progress),
    ensures
        line@ == section_line(name@, progress, counter, lasted@),
{
    let mut line = String::new();
    push_char(&mut line, ' ');
    push_char(&mut line, '▐');
    push_char(&mut line, ' ');
    line.append(name);
    push_char(&mut line, '\t');
    push_section_gauge(&mut line, progress, counter);
    push_char(&mut line, ' ');
    line.append(lasted);
    push_clear_line(&mut line);
    push_char(&mut line, '\n');
    line
}

/// The line where no section runs.
pub fn render_idle() -> (line: String)
    ensures
        line@ == empty_line(),
{
    let mut line = String::new();
    push_clear_line(&mut line);
    push_char(&mut line, '\n');
    line
}

/// The frames that fall due up to `now`, counted from the frame that is
/// due at `next_frame`: none while that lies ahead, else one for every
/// period begun since.
pub open spec fn frames_due(next_frame: Timestamp, now: Timestamp) -> nat {
    if next_frame.nanos <= now.nanos {
        ((now.nanos - next_frame.nanos) / (TIME_STEP as int) + 1) as nat
    } else {
        0
    }
}

/// Moves the animation on to `now`: the result is the time at which the
/// next frame falls due, the first after `now`, and the spinner's frame,
/// moved on by one for each frame that fell due.
pub fn advance_frames(next_frame: Timestamp, counter: u8, now: Timestamp) -> (moved: (
    Timestamp,
    u8,
))
    requires
        counter < SPINNER_LEN,
        now.nanos + TIME_STEP <= u64::MAX,
    ensures
        moved.0.nanos == next_frame.nanos + frames_due(next_frame, now) * TIME_STEP,
        moved.0.nanos > now.nanos,
        moved.1 == (counter + frames_due(next_frame, now)) % (SPINNER_LEN as int),
{
    if next_frame.nanos <= now.nanos {
        let due: u64 = (now.nanos - next_frame.nanos) / TIME_STEP + 1;
        proof {
            lemma_fundamental_div_mod((now.nanos - next_frame.nanos) as int, TIME_STEP as int);
            lemma_mod_bound((now.nanos - next_frame.nanos) as int, TIME_STEP as int);
            assert(due * TIME_STEP == TIME_STEP * ((now.nanos - next_frame.nanos) / (
            TIME_STEP as int)) + TIME_STEP) by (nonlinear_arith)
                requires
                    due == (now.nanos - next_frame.nanos) / (TIME_STEP as int) + 1,
            ;
            lemma_add_mod_noop(counter as int, due as int, SPINNER_LEN as int);
            lemma_small_mod(counter as nat, SPINNER_LEN as nat);
        }
        let frame: u8 = ((counter as u64 + due % (SPINNER_LEN as u64)) % (SPINNER_LEN as u64)) as u8;
        (Timestamp { nanos: next_frame.nanos + due * TIME_STEP }, frame)
    } else {
        proof {
            lemma_small_mod(counter as nat, SPINNER_LEN as nat);
        }
        (next_frame, counter)
    }
}

/// How the standard library words a span of `nanos` nanoseconds for
/// debugging: a number with the unit that suits it.
pub uninterp spec fn duration_words(nanos: u64) -> Seq<char>;

/// A span of `nanos` nanoseconds in words.
///
/// Trusted: this is the `Debug` formatting of `std::time::Duration`, taken
/// of the duration that `Duration::from_nanos` makes of `nanos`. The
/// contract only gives the text a name: it depends on `nanos` alone.
#[verifier::external_body]
fn debug_duration(nanos: u64) -> (words: String)
    ensures
        words@ == duration_words(nanos),
{
    format!("{:?}", std::time::Duration::from_nanos(nanos))
}

/// The line for `section` at `now` and at frame `counter` of the spinner:
/// the section's line with its duration in words, or the cleared line
/// where no section runs.
pub fn render_bar<S: AnySection>(section: Option<&S>, counter: u8, now: Timestamp) -> (line: String)
    requires
        counter < SPINNER_LEN,
        section matches Some(shown) ==> shown.measurable(now) && drawable(shown.shown_progress()),
    ensures
        section matches Some(shown) ==> line@ == section_line(
            shown.shown_name(),
            shown.shown_progress(),
            counter,
            duration_words(shown.shown_duration(now) as u64),
        ),
        section is None ==> line@ == empty_line(),
{
    match section {
        Some(shown) => {
            let lasted = debug_duration(shown.duration(now));
            render_section(shown.name(), shown.progress(), counter, lasted.as_str())
        },
        None => render_idle(),
    }
}

/// The line that a plain log shows for a task's running section: the
/// task's name, the section's name and, where the work is known, how much
/// of it is done.
pub open spec fn debug_line(task: Seq<char>, name: Seq<char>, progress: Option<(u64, u64)>) -> Seq<
    char,
> {
    task + seq![':', ' '] + name + (match progress {
        Some((done, total)) => seq![' '] + decimal(done as nat) + seq!['/'] + decimal(
            total as nat,
        ),
        None => Seq::empty(),
    }) + seq!['\n']
}

/// The line that a plain log shows for the running section of `task`.
pub fn render_debug_line(task: &str, name: &str, progress: Option<(u64, u64)>) -> (line: String)
    ensures
        line@ == debug_line(task@, name@, progress),
{
    let mut line = String::new();
    line.append(task);
    push_char(&mut line, ':');
    push_char(&mut line, ' ');
    line.append(name);
    match progress {
        Some((done, total)) => {
            push_char(&mut line, ' ');
            push_decimal(&mut line, done);
            push_char(&mut line, '/');
            push_decimal(&mut line, total);
        },
        None => {},
    }
    push_char(&mut line, '\n');
    line
}

} // verus!
