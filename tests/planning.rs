use video_grid::plan::{plan, GridPlan, PlanError};
use video_grid::rate::Rate;

fn whole(n: u64) -> Rate {
    Rate { num: n, den: 1 }
}

#[test]
fn full_hd_cells_are_a_quarter() {
    let p = plan(&[whole(30); 4], &[10; 4], None, 15, 1920, 1080).unwrap();
    assert_eq!((p.cell_width, p.cell_height), (960, 540));
}

#[test]
fn odd_width_truncates() {
    let p = plan(&[whole(30); 4], &[10; 4], None, 15, 1921, 1080).unwrap();
    assert_eq!((p.cell_width, p.cell_height), (960, 540));
}

#[test]
fn uniform_inputs_take_the_smaller_values() {
    let p = plan(&[whole(24); 4], &[12; 4], Some(whole(30)), 60, 1920, 1080).unwrap();
    assert_eq!((p.duration, p.rate), (12, whole(24)));
    let p = plan(&[whole(60); 4], &[12; 4], Some(whole(30)), 5, 1920, 1080).unwrap();
    assert_eq!((p.duration, p.rate), (5, whole(30)));
}

#[test]
fn mixed_inputs_scenario() {
    let p = plan(
        &[whole(24), whole(30), whole(60), whole(15)],
        &[10, 20, 15, 5],
        Some(whole(30)),
        60,
        1920,
        1080,
    )
    .unwrap();
    assert_eq!(
        p,
        GridPlan { rate: whole(30), duration: 20, cell_width: 960, cell_height: 540 }
    );
}

#[test]
fn rate_equal_to_cap_is_kept() {
    let p = plan(&[whole(30), whole(15), whole(15), whole(15)], &[1; 4], Some(whole(30)), 9, 4, 4)
        .unwrap();
    assert_eq!(p.rate, whole(30));
}

#[test]
fn no_cap_keeps_fastest_rate() {
    let ntsc = Rate { num: 60000, den: 1001 };
    let p = plan(&[whole(24), ntsc, whole(25), whole(50)], &[1; 4], None, 9, 4, 4).unwrap();
    assert_eq!(p.rate, ntsc);
}

#[test]
fn zero_durations_give_zero_duration() {
    let p = plan(&[whole(25); 4], &[0; 4], Some(whole(30)), 60, 1920, 1080).unwrap();
    assert_eq!(p.duration, 0);
}

#[test]
fn tiny_output_is_refused() {
    assert_eq!(
        plan(&[whole(25); 4], &[1; 4], None, 9, 1, 1080),
        Err(PlanError::CellTooSmall)
    );
    assert_eq!(
        plan(&[whole(25); 4], &[1; 4], None, 9, 1920, 0),
        Err(PlanError::CellTooSmall)
    );
}

#[test]
fn zero_rate_is_refused() {
    assert_eq!(
        plan(&[whole(0); 4], &[1; 4], None, 9, 1920, 1080),
        Err(PlanError::ZeroRate)
    );
    assert_eq!(
        plan(&[whole(25); 4], &[1; 4], Some(whole(0)), 9, 1920, 1080),
        Err(PlanError::ZeroRate)
    );
}
