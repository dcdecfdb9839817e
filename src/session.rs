use vstd::prelude::*;

use crate::command::{
    duration_probe, duration_probe_of, encode_run, encode_run_of, rate_probe, rate_probe_of, texts,
    Invocation,
};
use crate::graph::Position;
use crate::plan::{capped, fastest, plan, plan_of, GridPlan, PlanError};
use crate::probe::{probed_duration, probed_rate, read_duration, read_rate, ProbeFailure};
use crate::rate::Rate;

verus! {

/// What a grid is made of and how: four input paths in grid order (top-left,
/// top-right, bottom-left, bottom-right), the output size, the longest the
/// output may last in seconds, an optional cap on its frame rate, where it
/// goes, and whether to open it afterwards.
#[derive(Debug)]
pub struct Args {
    pub in1: String,
    pub in2: String,
    pub in3: String,
    pub in4: String,
    pub width: u32,
    pub height: u32,
    pub duration: u32,
    pub max_framerate: Option<Rate>,
    pub output_path: String,
    pub open: bool,
}

impl Args {
    pub open spec fn wf(self) -> bool {
        self.max_framerate matches Some(c) ==> c.wf()
    }

    pub open spec fn inputs(self) -> Seq<Seq<char>> {
        seq![self.in1@, self.in2@, self.in3@, self.in4@]
    }
}

/// The first error met, and where.
#[derive(Clone, Copy, Debug, PartialEq, Eq, Structural)]
pub enum GridError {
    Probe { input: Position, failure: ProbeFailure },
    Plan(PlanError),
    /// The encoder could not be run or exited with a non-zero status.
    Encode,
}

#[derive(Clone, Copy, Debug, PartialEq, Eq, Structural)]
pub enum Stage {
    /// Probing rates, then durations, input by input.
    Probing,
    /// All probes done; encoding by this plan.
    Encoding(GridPlan),
    /// The encoder succeeded.
    Done,
    Failed(GridError),
}

/// One run from the probes to the encode. The caller asks for the next
/// action, performs it, and hands back how the tool exited and what it printed.
#[derive(Debug)]
pub struct Session {
    pub args: Args,
    pub rates: Vec<Rate>,
    pub durations: Vec<u32>,
    pub stage: Stage,
}

pub struct SessionModel {
    pub rates: Seq<Rate>,
    pub durations: Seq<u32>,
    pub stage: Stage,
}

impl View for Session {
    type V = SessionModel;

    open spec fn view(&self) -> SessionModel {
        SessionModel { rates: self.rates@, durations: self.durations@, stage: self.stage }
    }
}

/// What to do next.
#[derive(Debug)]
pub enum Action {
    Run(Invocation),
    Finished,
    Failed(GridError),
}

pub enum ActionModel {
    Run((Seq<char>, Seq<Seq<char>>)),
    Finished,
    Failed(GridError),
}

impl View for Action {
    type V = ActionModel;

    open spec fn view(&self) -> ActionModel {
        match self {
            Action::Run(inv) => ActionModel::Run(inv@),
            Action::Finished => ActionModel::Finished,
            Action::Failed(e) => ActionModel::Failed(*e),
        }
    }
}

pub open spec fn position_at(i: int) -> Position {
    if i == 0 {
        Position::TopLeft
    } else if i == 1 {
        Position::TopRight
    } else if i == 2 {
        Position::BottomLeft
    } else {
        Position::BottomRight
    }
}

impl SessionModel {
    pub open spec fn wf(self) -> bool {
        &&& self.rates.len() <= 4
        &&& self.durations.len() <= 4
        &&& self.durations.len() > 0 ==> self.rates.len() == 4
        &&& forall|i: int| 0 <= i < self.rates.len() ==> (#[trigger] self.rates[i]).wf()
        &&& self.stage is Probing ==> self.durations.len() < 4
        &&& self.stage matches Stage::Encoding(p) ==> p.wf() && self.rates.len() == 4
            && self.durations.len() == 4
    }
}

/// The state after the current action ended with `success` and printed `out`.
pub open spec fn stepped(m: SessionModel, a: Args, success: bool, out: Seq<u8>) -> SessionModel {
    match m.stage {
        Stage::Probing => if m.rates.len() < 4 {
            match probed_rate(success, out) {
                Ok(r) => SessionModel { rates: m.rates.push(r), durations: m.durations, stage: m.stage },
                Err(e) => SessionModel {
                    rates: m.rates,
                    durations: m.durations,
                    stage: Stage::Failed(
                        GridError::Probe { input: position_at(m.rates.len() as int), failure: e },
                    ),
                },
            }
        } else {
            match probed_duration(success, out) {
                Ok(d) => SessionModel {
                    rates: m.rates,
                    durations: m.durations.push(d),
                    stage: if m.durations.len() + 1 < 4 {
                        Stage::Probing
                    } else {
                        match plan_of(
                            m.rates,
                            m.durations.push(d),
                            a.max_framerate,
                            a.duration,
                            a.width,
                            a.height,
                        ) {
                            Ok(p) => Stage::Encoding(p),
                            Err(e) => Stage::Failed(GridError::Plan(e)),
                        }
                    },
                },
                Err(e) => SessionModel {
                    rates: m.rates,
                    durations: m.durations,
                    stage: Stage::Failed(
                        GridError::Probe { input: position_at(m.durations.len() as int), failure: e },
                    ),
                },
            }
        },
        Stage::Encoding(_) => SessionModel {
            rates: m.rates,
            durations: m.durations,
            stage: if success {
                Stage::Done
            } else {
                Stage::Failed(GridError::Encode)
            },
        },
        _ => m,
    }
}

/// The action for a state: the next probe, the encode, or the end.
pub open spec fn next_action(m: SessionModel, a: Args) -> ActionModel {
    match m.stage {
        Stage::Probing => if m.rates.len() < 4 {
            ActionModel::Run(rate_probe(a.inputs()[m.rates.len() as int]))
        } else {
            ActionModel::Run(duration_probe(a.inputs()[m.durations.len() as int]))
        },
        Stage::Encoding(p) => ActionModel::Run(encode_run(a.inputs(), p, a.output_path@)),
        Stage::Done => ActionModel::Finished,
        Stage::Failed(e) => ActionModel::Failed(e),
    }
}

/// The state after a run of tool outcomes, in order.
pub open spec fn run_all(m: SessionModel, a: Args, events: Seq<(bool, Seq<u8>)>) -> SessionModel
    decreases events.len(),
{
    if events.len() == 0 {
        m
    } else {
        run_all(stepped(m, a, events[0].0, events[0].1), a, events.drop_first())
    }
}

fn position_of(i: usize) -> (r: Position)
    ensures
        r == position_at(i as int),
{
    if i == 0 {
        Position::TopLeft
    } else if i == 1 {
        Position::TopRight
    } else if i == 2 {
        Position::BottomLeft
    } else {
        Position::BottomRight
    }
}

impl Session {
    pub open spec fn wf(&self) -> bool {
        self.args.wf() && self@.wf()
    }

    /// A session that has done nothing yet.
    pub fn new(args: Args) -> (s: Session)
        requires
            args.wf(),
        ensures
            s.wf(),
            s.args == args,
            s@.rates.len() == 0,
            s@.durations.len() == 0,
            s@.stage == Stage::Probing,
    {
        Session { args, rates: Vec::new(), durations: Vec::new(), stage: Stage::Probing }
    }

    fn input(&self, i: usize) -> (r: &String)
        requires
            i < 4,
        ensures
            r@ == self.args.inputs()[i as int],
    {
        if i == 0 {
            &self.args.in1
        } else if i == 1 {
            &self.args.in2
        } else if i == 2 {
            &self.args.in3
        } else {
            &self.args.in4
        }
    }

    /// The action to perform now.
    pub fn action(&self) -> (r: Action)
        requires
            self.wf(),
        ensures
            r@ == next_action(self@, self.args),
    {
        match self.stage {
            Stage::Probing => if self.rates.len() < 4 {
                Action::Run(rate_probe_of(self.input(self.rates.len())))
            } else {
                Action::Run(duration_probe_of(self.input(self.durations.len())))
            },
            Stage::Encoding(p) => {
                let inputs = [
                    self.args.in1.clone(),
                    self.args.in2.clone(),
                    self.args.in3.clone(),
                    self.args.in4.clone(),
                ];
                assert(texts(inputs@) =~= self.args.inputs());
                Action::Run(encode_run_of(&inputs, &p, &self.args.output_path))
            },
            Stage::Done => Action::Finished,
            Stage::Failed(e) => Action::Failed(e),
        }
    }

    /// Takes in how the last action's tool exited and what it printed.
    pub fn advance(&mut self, success: bool, out: &[u8])
        requires
            old(self).wf(),
        ensures
            final(self).wf(),
            final(self).args == old(self).args,
            final(self)@ == stepped(old(self)@, old(self).args, success, out@),
    {
        match self.stage {
            Stage::Probing => if self.rates.len() < 4 {
                match read_rate(success, out) {
                    Ok(r) => {
                        self.rates.push(r);
                    },
                    Err(e) => {
                        self.stage = Stage::Failed(
                            GridError::Probe { input: position_of(self.rates.len()), failure: e },
                        );
                    },
                }
            } else {
                match read_duration(success, out) {
                    Ok(d) => {
                        self.durations.push(d);
                        if self.durations.len() == 4 {
                            let rates = [self.rates[0], self.rates[1], self.rates[2], self.rates[3]];
                            let durations = [
                                self.durations[0],
                                self.durations[1],
                                self.durations[2],
                                self.durations[3],
                            ];
                            assert(rates@ =~= self.rates@);
                            assert(durations@ =~= self.durations@);
                            self.stage = match plan(
                                &rates,
                                &durations,
                                self.args.max_framerate,
                                self.args.duration,
                                self.args.width,
                                self.args.height,
                            ) {
                                Ok(p) => Stage::Encoding(p),
                                Err(e) => Stage::Failed(GridError::Plan(e)),
                            };
                        }
                    },
                    Err(e) => {
                        self.stage = Stage::Failed(
                            GridError::Probe {
                                input: position_of(self.durations.len()),
                                failure: e,
                            },
                        );
                    },
                }
            },
            Stage::Encoding(_) => {
                self.stage = if success {
                    Stage::Done
                } else {
                    Stage::Failed(GridError::Encode)
                };
            },
            _ => {},
        }
    }
}

proof fn lemma_failed_is_final(m: SessionModel, a: Args, events: Seq<(bool, Seq<u8>)>)
    requires
        m.stage is Failed,
    ensures
        run_all(m, a, events) == m,
    decreases events.len(),
{
    if events.len() > 0 {
        lemma_failed_is_final(stepped(m, a, events[0].0, events[0].1), a, events.drop_first());
    }
}

/// A probe that fails, on any input, ends the session: whatever the tools
/// report afterwards, the session stays failed with that probe's error, and
/// its only action is to report it; no encode is ever started.
pub proof fn lemma_failed_probe_ends(
    m: SessionModel,
    a: Args,
    out: Seq<u8>,
    later: Seq<(bool, Seq<u8>)>,
)
    requires
        m.wf(),
        m.stage is Probing,
    ensures
        ({
            let f = stepped(m, a, false, out);
            let input = if m.rates.len() < 4 {
                position_at(m.rates.len() as int)
            } else {
                position_at(m.durations.len() as int)
            };
            &&& f.stage == Stage::Failed(
                GridError::Probe { input, failure: ProbeFailure::ToolFailed },
            )
            &&& run_all(f, a, later) == f
            &&& next_action(run_all(f, a, later), a) == ActionModel::Failed(
                GridError::Probe { input, failure: ProbeFailure::ToolFailed },
            )
        }),
{
    lemma_failed_is_final(stepped(m, a, false, out), a, later);
}

/// When the last duration probe reads zero seconds, as the three before it
/// did, the session still moves on to the encode, of zero seconds.
pub proof fn lemma_zero_durations_still_encode(
    m: SessionModel,
    a: Args,
    success: bool,
    out: Seq<u8>,
)
    requires
        m.wf(),
        m.stage is Probing,
        m.rates.len() == 4,
        m.durations == seq![0u32, 0u32, 0u32],
        probed_duration(success, out) == Ok::<u32, ProbeFailure>(0),
        a.width >= 2,
        a.height >= 2,
        capped(fastest(m.rates), a.max_framerate).num > 0,
    ensures
        ({
            let f = stepped(m, a, success, out);
            &&& f.stage matches Stage::Encoding(p) && p.duration == 0
            &&& f.stage matches Stage::Encoding(p) && next_action(f, a) == ActionModel::Run(
                encode_run(a.inputs(), p, a.output_path@),
            )
        }),
{
    assert(m.durations.push(0) =~= seq![0u32, 0u32, 0u32, 0u32]);
}

} // verus!
