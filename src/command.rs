use vstd::prelude::*;

use crate::graph::{build, graph_text, grid_segments};
use crate::plan::GridPlan;
use crate::text::{decimal, dec_text};

verus! {

/// A program to run and the arguments to hand it.
#[derive(Debug)]
pub struct Invocation {
    pub program: String,
    pub args: Vec<String>,
}

pub open spec fn texts(v: Seq<String>) -> Seq<Seq<char>> {
    v.map_values(|a: String| a@)
}

impl View for Invocation {
    type V = (Seq<char>, Seq<Seq<char>>);

    open spec fn view(&self) -> (Seq<char>, Seq<Seq<char>>) {
        (self.program@, texts(self.args@))
    }
}

/// The probe that prints the first video stream's frame rate of `path`, bare.
pub open spec fn rate_probe(path: Seq<char>) -> (Seq<char>, Seq<Seq<char>>) {
    (
        "ffprobe"@,
        seq![
            "-v"@,
            "error"@,
            "-select_streams"@,
            "v:0"@,
            "-show_entries"@,
            "stream=r_frame_rate"@,
            "-of"@,
            "default=noprint_wrappers=1:nokey=1"@,
            path,
        ],
    )
}

/// The probe that prints the duration in seconds of `path`, bare.
pub open spec fn duration_probe(path: Seq<char>) -> (Seq<char>, Seq<Seq<char>>) {
    (
        "ffprobe"@,
        seq![
            "-v"@,
            "error"@,
            "-show_entries"@,
            "format=duration"@,
            "-of"@,
            "default=noprint_wrappers=1:nokey=1"@,
            path,
        ],
    )
}

/// The encode of four inputs, in grid order, through the plan's filter graph
/// into `output`: only the `final` stream is kept, cut to the plan's duration,
/// frames duplicated or dropped to hold the rate, and `output` overwritten.
pub open spec fn encode_run(inputs: Seq<Seq<char>>, p: GridPlan, output: Seq<char>) -> (
    Seq<char>,
    Seq<Seq<char>>,
) {
    (
        "ffmpeg"@,
        seq![
            "-i"@,
            inputs[0],
            "-i"@,
            inputs[1],
            "-i"@,
            inputs[2],
            "-i"@,
            inputs[3],
            "-filter_complex"@,
            graph_text(grid_segments(p)),
            "-map"@,
            "[final]"@,
            "-t"@,
            dec_text(p.duration as nat),
            "-vsync"@,
            "2"@,
            "-y"@,
            output,
        ],
    )
}

fn push_arg(args: &mut Vec<String>, a: &str)
    ensures
        texts(final(args)@) == texts(old(args)@).push(a@),
{
    let s = a.to_owned();
    args.push(s);
    assert(texts(args@) =~= texts(old(args)@).push(a@));
}

fn push_string(args: &mut Vec<String>, s: String)
    ensures
        texts(final(args)@) == texts(old(args)@).push(s@),
{
    let ghost v = s@;
    args.push(s);
    assert(texts(args@) =~= texts(old(args)@).push(v));
}

/// The probe for the frame rate of `path`.
pub fn rate_probe_of(path: &String) -> (r: Invocation)
    ensures
        r@ == rate_probe(path@),
{
    let mut args: Vec<String> = Vec::new();
    assert(texts(args@) =~= Seq::<Seq<char>>::empty());
    push_arg(&mut args, "-v");
    push_arg(&mut args, "error");
    push_arg(&mut args, "-select_streams");
    push_arg(&mut args, "v:0");
    push_arg(&mut args, "-show_entries");
    push_arg(&mut args, "stream=r_frame_rate");
    push_arg(&mut args, "-of");
    push_arg(&mut args, "default=noprint_wrappers=1:nokey=1");
    push_string(&mut args, path.clone());
    let r = Invocation { program: "ffprobe".to_owned(), args };
    assert(r@.1 =~= rate_probe(path@).1);
    r
}

/// The probe for the duration of `path`.
pub fn duration_probe_of(path: &String) -> (r: Invocation)
    ensures
        r@ == duration_probe(path@),
{
    let mut args: Vec<String> = Vec::new();
    assert(texts(args@) =~= Seq::<Seq<char>>::empty());
    push_arg(&mut args, "-v");
    push_arg(&mut args, "error");
    push_arg(&mut args, "-show_entries");
    push_arg(&mut args, "format=duration");
    push_arg(&mut args, "-of");
    push_arg(&mut args, "default=noprint_wrappers=1:nokey=1");
    push_string(&mut args, path.clone());
    let r = Invocation { program: "ffprobe".to_owned(), args };
    assert(r@.1 =~= duration_probe(path@).1);
    r
}

/// The encode of the four inputs, in grid order, by plan `p` into `output`.
pub fn encode_run_of(inputs: &[String; 4], p: &GridPlan, output: &String) -> (r: Invocation)
    ensures
        r@ == encode_run(texts(inputs@), *p, output@),
{
    let mut args: Vec<String> = Vec::new();
    assert(texts(args@) =~= Seq::<Seq<char>>::empty());
    push_arg(&mut args, "-i");
    push_string(&mut args, inputs[0].clone());
    push_arg(&mut args, "-i");
    push_string(&mut args, inputs[1].clone());
    push_arg(&mut args, "-i");
    push_string(&mut args, inputs[2].clone());
    push_arg(&mut args, "-i");
    push_string(&mut args, inputs[3].clone());
    push_arg(&mut args, "-filter_complex");
    push_string(&mut args, build(p).render());
    push_arg(&mut args, "-map");
    push_arg(&mut args, "[final]");
    push_arg(&mut args, "-t");
    push_string(&mut args, decimal(p.duration as u64));
    push_arg(&mut args, "-vsync");
    push_arg(&mut args, "2");
    push_arg(&mut args, "-y");
    push_string(&mut args, output.clone());
    let r = Invocation { program: "ffmpeg".to_owned(), args };
    assert(r@.1 =~= encode_run(texts(inputs@), *p, output@).1);
    r
}

} // verus!
