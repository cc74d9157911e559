//! The text of the display: bars, spinners, elapsed time and cursor moves.

use vstd::prelude::*;
use vstd::string::*;
use crate::clock::{elapsed, Timestamp, NANOS_PER_SEC, NANOS_PER_TENTH};
use crate::entry::{BarEntry, BarEntryKind, Row, SPINNER_LEN};
use crate::text::{decimal, padded, push_char, push_decimal, push_padded, push_repeated, repeated};

verus! {

/// The width of a bar in character cells.
pub const PROGRESS_LEN: usize = 25;

/// Per mille shown by one full cell of a bar.
pub const PERMILLE_PER_CELL: u16 = 40;

/// Per mille shown by one eighth of a cell.
pub const PERMILLE_PER_EIGHTH: u16 = 5;

/// The cell that is filled to `eighths` eighths from the left.
pub open spec fn partial_glyph(eighths: nat) -> char
    recommends
        eighths < 8,
{
    if eighths == 0 {
        ' '
    } else if eighths == 1 {
        '▏'
    } else if eighths == 2 {
        '▎'
    } else if eighths == 3 {
        '▍'
    } else if eighths == 4 {
        '▌'
    } else if eighths == 5 {
        '▋'
    } else if eighths == 6 {
        '▊'
    } else {
        '▉'
    }
}

/// The spinner at `frame`: it fills from the left, then drains downward.
pub open spec fn spinner_glyph(frame: nat) -> char
    recommends
        frame < 16,
{
    if frame < 8 {
        partial_glyph(frame)
    } else if frame == 8 {
        '█'
    } else if frame == 9 {
        '▇'
    } else if frame == 10 {
        '▆'
    } else if frame == 11 {
        '▅'
    } else if frame == 12 {
        '▄'
    } else if frame == 13 {
        '▃'
    } else if frame == 14 {
        '▂'
    } else {
        '▁'
    }
}

/// The twenty-five cells of a bar at `permille`: one full cell for each 40
/// per mille, then, short of 1000, one cell filled by eighths of 5 per
/// mille each, then blanks.
pub open spec fn bar_cells(permille: nat) -> Seq<char>
    recommends
        permille <= 1000,
{
    if permille < 1000 {
        repeated('█', permille / 40) + seq![partial_glyph(permille % 40 / 5)] + repeated(
            ' ',
            (24 - permille / 40) as nat,
        )
    } else {
        repeated('█', permille / 40)
    }
}

/// A span of time for the display: tenths of a second behind the seconds,
/// with minutes and hours in front once there are any.
pub open spec fn elapsed_text(nanos: nat) -> Seq<char> {
    let tenths = nanos % 1_000_000_000 / 100_000_000;
    let secs = nanos / 1_000_000_000;
    let mins = secs / 60;
    let hours = mins / 60;
    if hours >= 1 {
        decimal(hours) + seq![':'] + padded(mins % 60, 2, '0') + seq![':'] + padded(
            secs % 60,
            2,
            '0',
        ) + seq!['.'] + decimal(tenths)
    } else if mins >= 1 {
        decimal(mins) + seq![':'] + padded(secs % 60, 2, '0') + seq!['.'] + decimal(tenths)
    } else {
        decimal(secs) + seq!['.'] + decimal(tenths) + seq!['s']
    }
}

/// What stands between a row's name and its elapsed time: for a bar the
/// percentage with one decimal and the cells, for a spinner its glyph,
/// each between the two half blocks that frame it.
pub open spec fn gauge_text(kind: BarEntryKind) -> Seq<char> {
    match kind {
        BarEntryKind::Progress(permille) => seq![' '] + padded(permille as nat / 10, 3, ' ')
            + seq!['.'] + decimal(permille as nat % 10) + seq!['%', ' ', '▌'] + bar_cells(
            permille as nat,
        ) + seq!['▐', ' '],
        BarEntryKind::Spinner(frame) => seq!['▌', spinner_glyph(frame as nat), '▐', ' '],
    }
}

/// The control sequence that clears from the cursor to the end of the line.
pub open spec fn clear_line() -> Seq<char> {
    seq!['\x1b', '[', 'K']
}

/// One row as it is painted at `now`: name, tab, gauge, the time since the
/// indicator was created, then the rest of the line cleared and a line end.
pub open spec fn row_text(row: Row, now: Timestamp) -> Seq<char> {
    row.name + seq!['\t'] + gauge_text(row.kind) + elapsed_text(elapsed(now, row.time))
        + clear_line() + seq!['\n']
}

/// The line printed when an indicator appears: an empty bar or an empty
/// spinner, and no time yet.
pub open spec fn placeholder_text(name: Seq<char>, progress: bool) -> Seq<char> {
    if progress {
        name + seq!['\t', ' ', ' ', ' ', '0', '.', '0', '%', ' ', '▌'] + repeated(' ', 25)
            + seq!['▐', ' ', '0', 's', '\n']
    } else {
        name + seq!['\t', '▌', ' ', '▐', ' ', '0', 's', '\n']
    }
}

/// The control sequence that moves the cursor up by `lines`.
pub open spec fn cursor_up(lines: nat) -> Seq<char> {
    seq!['\x1b', '['] + decimal(lines) + seq!['A']
}

/// The control sequence that moves the cursor down by `lines`.
pub open spec fn cursor_down(lines: nat) -> Seq<char> {
    seq!['\x1b', '['] + decimal(lines) + seq!['B']
}

/// The control sequences that erase the last line: up by one, then clear.
pub open spec fn erase_last_line() -> Seq<char> {
    seq!['\x1b', '[', 'A', '\x1b', '[', 'K']
}

/// All rows from `from` on, each painted at `now`, top to bottom.
pub open spec fn rows_text(rows: Seq<Row>, from: int, now: Timestamp) -> Seq<char>
    decreases rows.len() - from,
{
    if 0 <= from < rows.len() {
        row_text(rows[from], now) + rows_text(rows, from + 1, now)
    } else {
        Seq::empty()
    }
}

/// A bar is twenty-five cells wide, however far it is filled.
pub proof fn lemma_bar_width(permille: nat)
    requires
        permille <= 1000,
    ensures
        bar_cells(permille).len() == PROGRESS_LEN,
{
}

/// The cell that is filled to `eighths` eighths.
pub(crate) fn partial_cell(eighths: u8) -> (c: char)
    requires
        eighths < 8,
    ensures
        c == partial_glyph(eighths as nat),
{
    if eighths == 0 {
        ' '
    } else if eighths == 1 {
        '▏'
    } else if eighths == 2 {
        '▎'
    } else if eighths == 3 {
        '▍'
    } else if eighths == 4 {
        '▌'
    } else if eighths == 5 {
        '▋'
    } else if eighths == 6 {
        '▊'
    } else {
        '▉'
    }
}

/// The spinner's glyph at `frame`.
pub(crate) fn spinner_cell(frame: u8) -> (c: char)
    requires
        frame < SPINNER_LEN,
    ensures
        c == spinner_glyph(frame as nat),
{
    if frame < 8 {
        partial_cell(frame)
    } else if frame == 8 {
        '█'
    } else if frame == 9 {
        '▇'
    } else if frame == 10 {
        '▆'
    } else if frame == 11 {
        '▅'
    } else if frame == 12 {
        '▄'
    } else if frame == 13 {
        '▃'
    } else if frame == 14 {
        '▂'
    } else {
        '▁'
    }
}

/// Appends the cells of a bar at `permille`.
pub fn push_bar_cells(out: &mut String, permille: u16)
    requires
        permille <= 1000,
    ensures
        final(out)@ == old(out)@ + bar_cells(permille as nat),
{
    let full_count: usize = (permille / PERMILLE_PER_CELL) as usize;
    push_repeated(out, '█', full_count);
    if permille < 1000 {
        push_char(out, partial_cell((permille % PERMILLE_PER_CELL / PERMILLE_PER_EIGHTH) as u8));
        push_repeated(out, ' ', PROGRESS_LEN - (full_count + 1));
    }
}

/// Appends a span of `nanos` nanoseconds.
pub fn push_elapsed(out: &mut String, nanos: u64)
    ensures
        final(out)@ == old(out)@ + elapsed_text(nanos as nat),
{
    let tenths: u64 = nanos % NANOS_PER_SEC / NANOS_PER_TENTH;
    let secs: u64 = nanos / NANOS_PER_SEC;
    let mins: u64 = secs / 60;
    let hours: u64 = mins / 60;
    if hours >= 1 {
        push_decimal(out, hours);
        push_char(out, ':');
        push_padded(out, mins % 60, 2, '0');
        push_char(out, ':');
        push_padded(out, secs % 60, 2, '0');
        push_char(out, '.');
        push_decimal(out, tenths);
    } else if mins >= 1 {
        push_decimal(out, mins);
        push_char(out, ':');
        push_padded(out, secs % 60, 2, '0');
        push_char(out, '.');
        push_decimal(out, tenths);
    } else {
        push_decimal(out, secs);
        push_char(out, '.');
        push_decimal(out, tenths);
        push_char(out, 's');
    }
}

/// Appends the gauge of a row in state `kind`.
pub fn push_gauge(out: &mut String, kind: BarEntryKind)
    requires
        kind.in_range(),
    ensures
        final(out)@ == old(out)@ + gauge_text(kind),
{
    match kind {
        BarEntryKind::Progress(permille) => {
            push_char(out, ' ');
            push_padded(out, (permille / 10) as u64, 3, ' ');
            push_char(out, '.');
            push_decimal(out, (permille % 10) as u64);
            push_char(out, '%');
            push_char(out, ' ');
            push_char(out, '▌');
            push_bar_cells(out, permille);
        },
        BarEntryKind::Spinner(frame) => {
            push_char(out, '▌');
            push_char(out, spinner_cell(frame));
        },
    }
    push_char(out, '▐');
    push_char(out, ' ');
}

/// Appends the sequence that clears the rest of the line.
pub fn push_clear_line(out: &mut String)
    ensures
        final(out)@ == old(out)@ + clear_line(),
{
    push_char(out, '\x1b');
    push_char(out, '[');
    push_char(out, 'K');
}

/// Appends one row as it is painted at `now`.
pub fn push_row(out: &mut String, bar: &BarEntry, now: Timestamp)
    requires
        bar.kind.in_range(),
    ensures
        final(out)@ == old(out)@ + row_text(bar@, now),
{
    out.append(bar.name.as_str());
    push_char(out, '\t');
    push_gauge(out, bar.kind);
    push_elapsed(out, now.since(bar.time));
    push_clear_line(out);
    push_char(out, '\n');
}

/// One row as it is painted at `now`.
pub fn print_bar(bar: &BarEntry, now: Timestamp) -> (line: String)
    requires
        bar.kind.in_range(),
    ensures
        line@ == row_text(bar@, now),
{
    let mut line = String::new();
    push_row(&mut line, bar, now);
    line
}

/// Appends the line printed when an indicator appears.
pub fn push_placeholder(out: &mut String, name: &str, progress: bool)
    ensures
        final(out)@ == old(out)@ + placeholder_text(name@, progress),
{
    out.append(name);
    push_char(out, '\t');
    if progress {
        push_char(out, ' ');
        push_char(out, ' ');
        push_char(out, ' ');
        push_char(out, '0');
        push_char(out, '.');
        push_char(out, '0');
        push_char(out, '%');
        push_char(out, ' ');
        push_char(out, '▌');
        push_repeated(out, ' ', PROGRESS_LEN);
    } else {
        push_char(out, '▌');
        push_char(out, ' ');
    }
    push_char(out, '▐');
    push_char(out, ' ');
    push_char(out, '0');
    push_char(out, 's');
    push_char(out, '\n');
}

/// Appends the sequence that moves the cursor up by `lines`.
pub fn push_cursor_up(out: &mut String, lines: usize)
    ensures
        final(out)@ == old(out)@ + cursor_up(lines as nat),
{
    push_char(out, '\x1b');
    push_char(out, '[');
    push_decimal(out, lines as u64);
    push_char(out, 'A');
}

/// Appends the sequence that moves the cursor down by `lines`.
pub fn push_cursor_down(out: &mut String, lines: usize)
    ensures
        final(out)@ == old(out)@ + cursor_down(lines as nat),
{
    push_char(out, '\x1b');
    push_char(out, '[');
    push_decimal(out, lines as u64);
    push_char(out, 'B');
}

/// Appends the sequences that erase the last line.
pub fn push_erase_last_line(out: &mut String)
    ensures
        final(out)@ == old(out)@ + erase_last_line(),
{
    push_char(out, '\x1b');
    push_char(out, '[');
    push_char(out, 'A');
    push_char(out, '\x1b');
    push_char(out, '[');
    push_char(out, 'K');
}

} // verus!
