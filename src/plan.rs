use vstd::prelude::*;

use crate::rate::Rate;

verus! {

/// What the encoder is asked for: one frame rate, one duration and the size of each cell.
#[derive(Clone, Copy, Debug, PartialEq, Eq, Structural)]
pub struct GridPlan {
    pub rate: Rate,
    pub duration: u32,
    pub cell_width: u32,
    pub cell_height: u32,
}

/// Why no plan can be made.
#[derive(Clone, Copy, Debug, PartialEq, Eq, Structural)]
pub enum PlanError {
    /// Half the output width or height is zero, so a cell would be empty.
    CellTooSmall,
    /// The frame rate to encode at would be zero.
    ZeroRate,
}

impl GridPlan {
    /// Each cell has an area and the rate is a positive fraction.
    pub open spec fn wf(self) -> bool {
        &&& self.cell_width > 0
        &&& self.cell_height > 0
        &&& self.rate.wf()
        &&& self.rate.num > 0
    }
}

/// The faster of two rates; the first on a tie.
pub open spec fn faster(a: Rate, b: Rate) -> Rate {
    if a.lt(b) {
        b
    } else {
        a
    }
}

/// The fastest of the four input rates.
pub open spec fn fastest(r: Seq<Rate>) -> Rate {
    faster(faster(faster(r[0], r[1]), r[2]), r[3])
}

/// `rate` held down to `cap` when a cap is given.
pub open spec fn capped(rate: Rate, cap: Option<Rate>) -> Rate {
    match cap {
        Some(c) => if c.lt(rate) {
            c
        } else {
            rate
        },
        None => rate,
    }
}

/// The longest of the four input durations.
pub open spec fn longest(d: Seq<u32>) -> u32 {
    vstd::math::max(
        vstd::math::max(d[0] as int, d[1] as int),
        vstd::math::max(d[2] as int, d[3] as int),
    ) as u32
}

/// The requested duration, cut to the longest input: the output is never padded.
pub open spec fn effective_duration(d: Seq<u32>, requested: u32) -> u32 {
    vstd::math::min(requested as int, longest(d) as int) as u32
}

/// The plan for four inputs with the given rates and durations.
pub open spec fn plan_of(
    rates: Seq<Rate>,
    durations: Seq<u32>,
    cap: Option<Rate>,
    requested: u32,
    width: u32,
    height: u32,
) -> Result<GridPlan, PlanError> {
    let rate = capped(fastest(rates), cap);
    if width / 2 == 0 || height / 2 == 0 {
        Err(PlanError::CellTooSmall)
    } else if rate.num == 0 {
        Err(PlanError::ZeroRate)
    } else {
        Ok(
            GridPlan {
                rate,
                duration: effective_duration(durations, requested),
                cell_width: width / 2,
                cell_height: height / 2,
            },
        )
    }
}

fn pick_faster(a: Rate, b: Rate) -> (r: Rate)
    ensures
        r == faster(a, b),
{
    if a.less_than(&b) {
        b
    } else {
        a
    }
}

/// Plans the grid: the fastest input rate held to `cap`, the requested
/// duration cut to the longest input, and each cell half the output in each
/// direction (rounded down).
pub fn plan(
    rates: &[Rate; 4],
    durations: &[u32; 4],
    cap: Option<Rate>,
    requested: u32,
    width: u32,
    height: u32,
) -> (r: Result<GridPlan, PlanError>)
    requires
        forall|i: int| 0 <= i < 4 ==> (#[trigger] rates@[i]).wf(),
        cap matches Some(c) ==> c.wf(),
    ensures
        r == plan_of(rates@, durations@, cap, requested, width, height),
        r matches Ok(p) ==> p.wf(),
{
    let top = pick_faster(pick_faster(pick_faster(rates[0], rates[1]), rates[2]), rates[3]);
    let rate = match cap {
        Some(c) => if c.less_than(&top) {
            c
        } else {
            top
        },
        None => top,
    };
    let a = if durations[0] < durations[1] {
        durations[1]
    } else {
        durations[0]
    };
    let b = if durations[2] < durations[3] {
        durations[3]
    } else {
        durations[2]
    };
    let long = if a < b {
        b
    } else {
        a
    };
    let duration = if requested < long {
        requested
    } else {
        long
    };
    if width / 2 == 0 || height / 2 == 0 {
        Err(PlanError::CellTooSmall)
    } else if rate.num == 0 {
        Err(PlanError::ZeroRate)
    } else {
        Ok(GridPlan { rate, duration, cell_width: width / 2, cell_height: height / 2 })
    }
}

/// With four inputs of one rate and one duration, the output lasts the
/// shorter of the request and that duration, at the slower of that rate and
/// the cap.
pub proof fn lemma_uniform_inputs(
    rate: Rate,
    duration: u32,
    cap: Rate,
    requested: u32,
    width: u32,
    height: u32,
)
    requires
        rate.wf(),
        cap.wf(),
        width >= 2,
        height >= 2,
        rate.num > 0,
        cap.num > 0,
    ensures
        plan_of(seq![rate, rate, rate, rate], seq![duration, duration, duration, duration], Some(cap), requested, width, height)
            matches Ok(p) && p.duration == vstd::math::min(requested as int, duration as int)
            && p.rate == (if cap.lt(rate) { cap } else { rate }),
{
}

/// Inputs that all last zero seconds give a plan of zero seconds, which is
/// still a plan: nothing is refused on that account.
pub proof fn lemma_zero_durations(
    rates: Seq<Rate>,
    cap: Option<Rate>,
    requested: u32,
    width: u32,
    height: u32,
)
    requires
        width >= 2,
        height >= 2,
        capped(fastest(rates), cap).num > 0,
    ensures
        plan_of(rates, seq![0u32, 0u32, 0u32, 0u32], cap, requested, width, height) matches Ok(p)
            && p.duration == 0,
{
}

} // verus!
