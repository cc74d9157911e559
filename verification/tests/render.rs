use omnitrace_task::clock::{Timestamp, TIME_STEP};
use omnitrace_task::render::{
    advance_frames, is_drawable, per_mille, render_bar, render_debug_line, render_idle, render_section, C10,
    C100, C1000,
};
use omnitrace_task::task::{FinishedSection, Section};

fn at(nanos: u64) -> Timestamp {
    Timestamp { nanos }
}

#[test]
fn measure_of_small_counts_is_per_mille() {
    assert_eq!(per_mille((0, 10)), 0);
    assert_eq!(per_mille((3, 10)), 300);
    assert_eq!(per_mille((1, 3)), 333);
    assert_eq!(per_mille((55, 60)), 916);
    assert_eq!(per_mille((10, 10)), 1000);
    assert_eq!(per_mille((C1000, u64::MAX)), 0);
}

#[test]
fn measure_of_large_counts_by_step() {
    assert_eq!(C1000, u64::MAX / 1000);
    assert_eq!(C100, u64::MAX / 100);
    assert_eq!(C10, u64::MAX / 10);
    // second step: a hundred times the count over a tenth of the total
    assert_eq!(per_mille((C1000 + 1, u64::MAX)), 1);
    assert_eq!(per_mille((C100, u64::MAX)), 9);
    // third step: ten times the count over a hundredth of the total
    assert_eq!(per_mille((C100 + 1, u64::MAX)), 10);
    assert_eq!(per_mille((C10, u64::MAX)), 100);
    assert_eq!(per_mille((200_000_000_000_000_000, 400_000_000_000_000_000)), 500);
    // fourth step: the count over a thousandth of the total
    assert_eq!(per_mille((C10 + 1, u64::MAX)), 100);
    assert_eq!(per_mille((u64::MAX / 2, u64::MAX)), 500);
    assert_eq!(per_mille((u64::MAX - 1, u64::MAX)), 1000);
}

#[test]
fn section_with_known_work() {
    let line = render_section("parse", Some((55, 60)), 3, "1.5s");
    // 916 per mille: 183 steps of five, 22 full cells and 7 eighths
    let expected = format!(" ▐ parse\t91.6% ▌{}▉{}▐ 1.5s\x1b[K\n", "█".repeat(22), " ".repeat(2));
    assert_eq!(line, expected);
    let line = render_section("parse", Some((1, 60)), 3, "2ms");
    let expected = format!(" ▐ parse\t 1.6% ▌{}▍{}▐ 2ms\x1b[K\n", "", " ".repeat(24));
    assert_eq!(line, expected);
}

#[test]
fn section_with_all_work_done() {
    let line = render_section("parse", Some((60, 60)), 0, "3s");
    assert_eq!(line, format!(" ▐ parse\t 100% ▌{}▐ 3s\x1b[K\n", "█".repeat(25)));
    let line = render_section("none", Some((0, 0)), 0, "0ns");
    assert_eq!(line, format!(" ▐ none\t 100% ▌{}▐ 0ns\x1b[K\n", "█".repeat(25)));
}

#[test]
fn section_with_unknown_work_spins() {
    let glyphs = [
        ' ', '▏', '▎', '▍', '▌', '▋', '▊', '▉', '█', '▇', '▆', '▅', '▄', '▃', '▂', '▁',
    ];
    for (counter, glyph) in glyphs.iter().enumerate() {
        let line = render_section("link", None, counter as u8, "10ms");
        assert_eq!(line, format!(" ▐ link\t▌{}▐ 10ms\x1b[K\n", glyph));
    }
}

#[test]
fn no_section_clears_the_line() {
    assert_eq!(render_idle(), "\x1b[K\n");
    assert_eq!(render_bar(None::<&Section>, 0, at(0)), "\x1b[K\n");
}

#[test]
fn running_section_shows_the_time_since_its_start() {
    let section =
        Section { name: String::from("run"), progress: None, start: at(1_000_000_000) };
    let line = render_bar(Some(&section), 1, at(2_500_000_000));
    assert_eq!(line, " ▐ run\t▌▏▐ 1.5s\x1b[K\n");
    let line = render_bar(Some(&section), 1, at(1_000_000_000));
    assert_eq!(line, " ▐ run\t▌▏▐ 0ns\x1b[K\n");
}

#[test]
fn finished_section_shows_its_recorded_duration() {
    let section =
        FinishedSection { name: String::from("over"), progress: Some((1, 2)), duration: 2_000_000 };
    let line = render_bar(Some(&section), 0, at(7));
    assert_eq!(line, format!(" ▐ over\t50.0% ▌{}▌{}▐ 2ms\x1b[K\n", "█".repeat(12), " ".repeat(12)));
}

#[test]
fn debug_lines() {
    assert_eq!(render_debug_line("build", "parse", Some((3, 60))), "build: parse 3/60\n");
    assert_eq!(render_debug_line("build", "link", None), "build: link\n");
}

#[test]
fn frames_fall_due_once_per_period() {
    // the next frame lies ahead: nothing moves
    assert_eq!(advance_frames(at(500), 3, at(499)), (at(500), 3));
    // it is due now: one frame
    assert_eq!(advance_frames(at(500), 3, at(500)), (at(500 + TIME_STEP), 4));
    assert_eq!(advance_frames(at(500), 3, at(499 + TIME_STEP)), (at(500 + TIME_STEP), 4));
    // a period later: two frames
    assert_eq!(advance_frames(at(500), 3, at(500 + TIME_STEP)), (at(500 + 2 * TIME_STEP), 5));
}

#[test]
fn frame_counter_wraps_at_sixteen() {
    assert_eq!(advance_frames(at(0), 15, at(0)), (at(TIME_STEP), 0));
    assert_eq!(advance_frames(at(0), 0, at(16 * TIME_STEP - 1)), (at(16 * TIME_STEP), 0));
    assert_eq!(advance_frames(at(0), 5, at(40 * TIME_STEP)), (at(41 * TIME_STEP), (5 + 41) % 16));
}

#[test]
fn bars_that_cannot_be_drawn_are_told_apart() {
    assert!(is_drawable(None));
    assert!(is_drawable(Some((0, 0))));
    assert!(is_drawable(Some((3, 10))));
    assert!(is_drawable(Some((10, 10))));
    // no measure: the divisor would be zero
    assert!(!is_drawable(Some((1, 0))));
    assert!(!is_drawable(Some((C1000 + 1, 9))));
    // more done than there is: the bar has no cells for it
    assert!(!is_drawable(Some((11, 10))));
    // a measure of 1000 short of the total
    assert!(!is_drawable(Some((u64::MAX - 1, u64::MAX))));
    // large counts are measured like small ones
    assert!(is_drawable(Some((C100 + 1, u64::MAX))));
    assert!(is_drawable(Some((C10, u64::MAX))));
    assert!(is_drawable(Some((200_000_000_000_000_000, 400_000_000_000_000_000))));
    assert!(!is_drawable(Some((C100 + 1, 99))));
}

#[test]
fn measure_is_at_most_one_above_the_exact_per_mille() {
    for (done, total) in [
        (C1000 + 1, C1000 + 2),
        (C1000 + 1, u64::MAX),
        (C100, C100 + 1),
        (C100 + 1, C100 + 2),
        (C100 + 1, u64::MAX),
        (C10, C10 + 7),
        (C10 + 1, C10 + 2),
        (u64::MAX / 3, u64::MAX / 2),
        (u64::MAX - 1, u64::MAX),
        (200_000_000_000_000_000, 400_000_000_000_000_000),
        (2_000_000_000_000_000_000, 4_000_000_000_000_000_000),
    ] {
        let exact = (done as u128 * 1000 / total as u128) as u64;
        let got = per_mille((done, total));
        assert!(exact <= got && got <= exact + 1 && got <= 1000);
    }
}

#[test]
fn section_at_one_half_of_a_large_count() {
    let line = render_section("big", Some((200_000_000_000_000_000, 400_000_000_000_000_000)), 0, "1s");
    assert_eq!(line, format!(" ▐ big\t50.0% ▌{}▌{}▐ 1s\x1b[K\n", "█".repeat(12), " ".repeat(12)));
}
