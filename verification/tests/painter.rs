use omnitrace_task::clock::Timestamp;
use omnitrace_task::entry::{BarEntry, BarEntryKind};
use omnitrace_task::ident::{BarId, IdAllocator};
use omnitrace_task::painter::{
    print_bar, push_cursor_down, push_cursor_up, push_elapsed, push_erase_last_line,
    push_placeholder,
};
use omnitrace_task::text::{decimal_len, push_decimal, push_padded, push_repeated};

fn at(nanos: u64) -> Timestamp {
    Timestamp { nanos }
}

fn some_id() -> BarId {
    let mut ids = IdAllocator::new();
    BarId::new(&mut ids)
}

fn entry(name: &str, time: u64, kind: BarEntryKind) -> BarEntry {
    BarEntry { id: some_id(), name: String::from(name), time: at(time), kind }
}

fn elapsed_words(nanos: u64) -> String {
    let mut out = String::new();
    push_elapsed(&mut out, nanos);
    out
}

#[test]
fn empty_bar() {
    let line = print_bar(&entry("job", 0, BarEntryKind::Progress(0)), at(0));
    let expected = format!("job\t   0.0% ▌{}▐ 0.0s\x1b[K\n", " ".repeat(25));
    assert_eq!(line, expected);
}

#[test]
fn full_bar() {
    let line = print_bar(&entry("job", 0, BarEntryKind::Progress(1000)), at(2_500_000_000));
    let expected = format!("job\t 100.0% ▌{}▐ 2.5s\x1b[K\n", "█".repeat(25));
    assert_eq!(line, expected);
}

#[test]
fn bar_with_a_partial_cell() {
    let line = print_bar(&entry("job", 1_000, BarEntryKind::Progress(457)), at(1_000));
    let expected = format!("job\t  45.7% ▌{}▍{}▐ 0.0s\x1b[K\n", "█".repeat(11), " ".repeat(13));
    assert_eq!(line, expected);
    assert_eq!(line.chars().filter(|c| *c == '█').count(), 11);
}

#[test]
fn bar_cells_by_eighths() {
    let glyphs = [' ', '▏', '▎', '▍', '▌', '▋', '▊', '▉'];
    for (eighths, glyph) in glyphs.iter().enumerate() {
        let permille = 40 + 5 * eighths as u16;
        let line = print_bar(&entry("x", 0, BarEntryKind::Progress(permille)), at(0));
        let expected = format!(
            "x\t  {:>2}.{}% ▌█{}{}▐ 0.0s\x1b[K\n",
            permille / 10,
            permille % 10,
            glyph,
            " ".repeat(23)
        );
        assert_eq!(line, expected);
    }
}

#[test]
fn bar_is_always_twenty_five_cells_wide() {
    for permille in 0..=1000u16 {
        let line = print_bar(&entry("", 0, BarEntryKind::Progress(permille)), at(0));
        let open = line.chars().position(|c| c == '▌').unwrap();
        let close = line.chars().position(|c| c == '▐').unwrap();
        assert_eq!(close - open - 1, 25);
    }
}

#[test]
fn spinner_frames() {
    let glyphs = [
        ' ', '▏', '▎', '▍', '▌', '▋', '▊', '▉', '█', '▇', '▆', '▅', '▄', '▃', '▂', '▁',
    ];
    for (frame, glyph) in glyphs.iter().enumerate() {
        let line = print_bar(&entry("wait", 0, BarEntryKind::Spinner(frame as u8)), at(300_000_000));
        assert_eq!(line, format!("wait\t▌{}▐ 0.3s\x1b[K\n", glyph));
    }
}

#[test]
fn elapsed_time_in_seconds() {
    assert_eq!(elapsed_words(0), "0.0s");
    assert_eq!(elapsed_words(99_999_999), "0.0s");
    assert_eq!(elapsed_words(100_000_000), "0.1s");
    assert_eq!(elapsed_words(59_950_000_000), "59.9s");
}

#[test]
fn elapsed_time_in_minutes() {
    assert_eq!(elapsed_words(60_000_000_000), "1:00.0");
    assert_eq!(elapsed_words(61_000_000_000), "1:01.0");
    assert_eq!(elapsed_words(3_599_900_000_000), "59:59.9");
}

#[test]
fn elapsed_time_in_hours() {
    assert_eq!(elapsed_words(3_600_000_000_000), "1:00:00.0");
    assert_eq!(elapsed_words(3_661_500_000_000), "1:01:01.5");
    assert_eq!(elapsed_words(u64::MAX), "5124095:34:33.7");
}

#[test]
fn time_before_creation_counts_as_none() {
    let line = print_bar(&entry("job", 5_000_000_000, BarEntryKind::Spinner(0)), at(1));
    assert_eq!(line, "job\t▌ ▐ 0.0s\x1b[K\n");
}

#[test]
fn placeholder_lines() {
    let mut bar = String::new();
    push_placeholder(&mut bar, "job", true);
    assert_eq!(bar, format!("job\t   0.0% ▌{}▐ 0s\n", " ".repeat(25)));
    let mut spinner = String::from("> ");
    push_placeholder(&mut spinner, "wait", false);
    assert_eq!(spinner, "> wait\t▌ ▐ 0s\n");
}

#[test]
fn cursor_moves() {
    let mut out = String::new();
    push_cursor_up(&mut out, 3);
    push_cursor_down(&mut out, 12);
    push_erase_last_line(&mut out);
    assert_eq!(out, "\x1b[3A\x1b[12B\x1b[A\x1b[K");
}

#[test]
fn decimal_numbers() {
    let mut out = String::new();
    for n in [0u64, 7, 10, 99, 100, 12345, u64::MAX] {
        push_decimal(&mut out, n);
        out.push(' ');
    }
    assert_eq!(out, "0 7 10 99 100 12345 18446744073709551615 ");
    assert_eq!(decimal_len(0), 1);
    assert_eq!(decimal_len(9), 1);
    assert_eq!(decimal_len(10), 2);
    assert_eq!(decimal_len(u64::MAX), 20);
}

#[test]
fn padded_numbers() {
    let mut out = String::new();
    push_padded(&mut out, 5, 3, ' ');
    push_padded(&mut out, 5, 2, '0');
    push_padded(&mut out, 123, 2, '0');
    push_repeated(&mut out, '-', 3);
    push_repeated(&mut out, '+', 0);
    assert_eq!(out, "  505123---");
}
