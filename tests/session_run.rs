use video_grid::command::{duration_probe_of, rate_probe_of};
use video_grid::graph::Position;
use video_grid::plan::PlanError;
use video_grid::probe::ProbeFailure;
use video_grid::rate::Rate;
use video_grid::session::{Action, Args, GridError, Session, Stage};

fn args(cap: Option<Rate>) -> Args {
    Args {
        in1: "a.mp4".to_string(),
        in2: "b.mp4".to_string(),
        in3: "c.mp4".to_string(),
        in4: "d.mp4".to_string(),
        width: 1920,
        height: 1080,
        duration: 60,
        max_framerate: cap,
        output_path: "out.mp4".to_string(),
        open: false,
    }
}

fn run_args(a: &Action) -> (String, Vec<String>) {
    match a {
        Action::Run(inv) => (inv.program.clone(), inv.args.clone()),
        other => panic!("expected a run, got {:?}", other),
    }
}

/// Feeds the rate and duration outputs to a session and returns it with the
/// programs it asked for.
fn probe_all(s: &mut Session, rates: [&str; 4], durations: [&str; 4]) -> Vec<(String, Vec<String>)> {
    let mut asked = Vec::new();
    for out in rates.iter().chain(durations.iter()) {
        asked.push(run_args(&s.action()));
        s.advance(true, out.as_bytes());
    }
    asked
}

#[test]
fn probe_invocations_are_exact() {
    let r = rate_probe_of(&"a.mp4".to_string());
    assert_eq!(r.program, "ffprobe");
    assert_eq!(
        r.args,
        vec![
            "-v", "error", "-select_streams", "v:0", "-show_entries", "stream=r_frame_rate",
            "-of", "default=noprint_wrappers=1:nokey=1", "a.mp4"
        ]
    );
    let d = duration_probe_of(&"b.mp4".to_string());
    assert_eq!(d.program, "ffprobe");
    assert_eq!(
        d.args,
        vec![
            "-v", "error", "-show_entries", "format=duration", "-of",
            "default=noprint_wrappers=1:nokey=1", "b.mp4"
        ]
    );
}

#[test]
fn whole_run_probes_in_grid_order_then_encodes() {
    let mut s = Session::new(args(Some(Rate { num: 30, den: 1 })));
    let asked = probe_all(
        &mut s,
        ["24/1\n", "30/1\n", "60/1\n", "15/1\n"],
        ["10.0\n", "20.4\n", "15\n", "5\n"],
    );
    let files: Vec<&str> = asked.iter().map(|(_, a)| a.last().unwrap().as_str()).collect();
    assert_eq!(files, vec!["a.mp4", "b.mp4", "c.mp4", "d.mp4", "a.mp4", "b.mp4", "c.mp4", "d.mp4"]);
    assert!(asked[..4].iter().all(|(_, a)| a.contains(&"stream=r_frame_rate".to_string())));
    assert!(asked[4..].iter().all(|(_, a)| a.contains(&"format=duration".to_string())));

    let (program, enc) = run_args(&s.action());
    assert_eq!(program, "ffmpeg");
    assert_eq!(&enc[..8], &["-i", "a.mp4", "-i", "b.mp4", "-i", "c.mp4", "-i", "d.mp4"]);
    assert_eq!(enc[8], "-filter_complex");
    assert!(enc[9].contains("fps=fps=30/1,"));
    assert!(enc[9].ends_with("[top][bottom]vstack=inputs=2[final]"));
    assert_eq!(&enc[10..], &["-map", "[final]", "-t", "20", "-vsync", "2", "-y", "out.mp4"]);

    s.advance(true, b"");
    assert!(matches!(s.action(), Action::Finished));
    assert_eq!(s.stage, Stage::Done);
}

#[test]
fn zero_durations_still_encode() {
    let mut s = Session::new(args(None));
    probe_all(&mut s, ["25/1"; 4], ["0.000000"; 4]);
    let (program, enc) = run_args(&s.action());
    assert_eq!(program, "ffmpeg");
    let t = enc.iter().position(|a| a == "-t").unwrap();
    assert_eq!(enc[t + 1], "0");
}

#[test]
fn failed_probe_stops_before_encoding() {
    let mut s = Session::new(args(None));
    s.advance(true, b"25/1");
    s.advance(true, b"25/1");
    s.advance(false, b"");
    let err = GridError::Probe { input: Position::BottomLeft, failure: ProbeFailure::ToolFailed };
    assert_eq!(s.stage, Stage::Failed(err));
    for _ in 0..10 {
        assert!(matches!(s.action(), Action::Failed(e) if e == err));
        s.advance(true, b"25/1");
    }
    assert_eq!(s.rates.len(), 2);
}

#[test]
fn failed_duration_probe_names_its_input() {
    let mut s = Session::new(args(None));
    for _ in 0..4 {
        s.advance(true, b"25/1");
    }
    s.advance(true, b"3.0");
    s.advance(true, b"N/A");
    assert_eq!(
        s.stage,
        Stage::Failed(GridError::Probe { input: Position::TopRight, failure: ProbeFailure::Malformed })
    );
}

#[test]
fn zero_denominator_fails_the_session() {
    let mut s = Session::new(args(None));
    s.advance(true, b"0/0");
    assert_eq!(
        s.stage,
        Stage::Failed(GridError::Probe {
            input: Position::TopLeft,
            failure: ProbeFailure::ZeroDenominator
        })
    );
}

#[test]
fn failed_encode_is_reported() {
    let mut s = Session::new(args(None));
    probe_all(&mut s, ["25/1"; 4], ["3"; 4]);
    s.advance(false, b"");
    assert!(matches!(s.action(), Action::Failed(GridError::Encode)));
}

#[test]
fn tiny_output_fails_planning() {
    let mut a = args(None);
    a.width = 1;
    let mut s = Session::new(a);
    probe_all(&mut s, ["25/1"; 4], ["3"; 4]);
    assert_eq!(s.stage, Stage::Failed(GridError::Plan(PlanError::CellTooSmall)));
}
