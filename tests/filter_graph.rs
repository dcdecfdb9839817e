use video_grid::graph::{build, Label, Segment};
use video_grid::plan::GridPlan;
use video_grid::rate::Rate;
use video_grid::text::decimal;

fn hd_plan() -> GridPlan {
    GridPlan { rate: Rate { num: 30, den: 1 }, duration: 20, cell_width: 960, cell_height: 540 }
}

#[test]
fn graph_has_four_cells_two_rows_one_stack() {
    let g = build(&hd_plan());
    let cells = g.segments.iter().filter(|s| matches!(s, Segment::Cell { .. })).count();
    let rows = g.segments.iter().filter(|s| matches!(s, Segment::HStack { .. })).count();
    let stacks = g.segments.iter().filter(|s| matches!(s, Segment::VStack { .. })).count();
    assert_eq!((cells, rows, stacks), (4, 2, 1));
    let finals = g
        .segments
        .iter()
        .filter(|s| matches!(s, Segment::VStack { out: Label::Final, .. }))
        .count();
    assert_eq!(finals, 1);
}

#[test]
fn graph_text_is_exact() {
    let text = build(&hd_plan()).render();
    let cell = |i: u32, l: &str| {
        format!(
            "[{i}:v]scale=960:540:force_original_aspect_ratio=decrease,pad=960:540:(ow-iw)/2:(oh-ih)/2,setpts=PTS-STARTPTS,fps=fps=30/1,fifo[{l}]"
        )
    };
    let expected = format!(
        "{}; {}; {}; {}; [vid1][vid2]hstack=inputs=2[top]; [vid3][vid4]hstack=inputs=2[bottom]; [top][bottom]vstack=inputs=2[final]",
        cell(0, "vid1"),
        cell(1, "vid2"),
        cell(2, "vid3"),
        cell(3, "vid4")
    );
    assert_eq!(text, expected);
    assert_eq!(text.matches("[final]").count(), 1);
    assert_eq!(text.matches("hstack").count(), 2);
    assert_eq!(text.matches("vstack").count(), 1);
}

#[test]
fn graph_text_carries_fractional_rate() {
    let p = GridPlan {
        rate: Rate { num: 30000, den: 1001 },
        duration: 5,
        cell_width: 640,
        cell_height: 361,
    };
    let text = build(&p).render();
    assert!(text.contains("fps=fps=30000/1001,fifo[vid4]"));
    assert!(text.contains("scale=640:361:force_original_aspect_ratio=decrease,pad=640:361:"));
}

#[test]
fn decimals_are_written_in_full() {
    assert_eq!(decimal(0), "0");
    assert_eq!(decimal(7), "7");
    assert_eq!(decimal(1234567890), "1234567890");
    assert_eq!(decimal(u64::MAX), "18446744073709551615");
}
