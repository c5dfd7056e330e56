use vstd::prelude::*;

verus! {

/// What a traced ray met: nothing (it escaped to the sky), a surface that
/// absorbed it, or a surface that scattered it into a new ray.
#[derive(Clone, Copy, Debug, PartialEq, Eq, Structural)]
pub enum Bounce {
    Missed,
    Absorbed,
    Scattered,
}

/// What the integrator does after a bounce: end the path in black, end it on
/// the sky gradient, or trace the scattered ray with the given depth left.
#[derive(Clone, Copy, Debug, PartialEq, Eq, Structural)]
pub enum Step {
    Black,
    Sky,
    Trace { depth: i64 },
}

/// A ray is traced only while depth is left; at depth 0 or below the path
/// contributes black.
pub open spec fn traces_spec(depth: int) -> bool {
    depth > 0
}

/// The step that follows a bounce met by a ray traced with `depth` left.
pub open spec fn step_spec(depth: int, bounce: Bounce) -> Step {
    match bounce {
        Bounce::Missed => Step::Sky,
        Bounce::Absorbed => Step::Black,
        Bounce::Scattered => Step::Trace { depth: (depth - 1) as i64 },
    }
}

/// Whether a ray with `depth` left is traced at all.
pub fn traces(depth: i64) -> (r: bool)
    ensures
        r == traces_spec(depth as int),
{
    depth > 0
}

/// The step that follows a bounce met by a ray traced with `depth` left.
pub fn step(depth: i64, bounce: Bounce) -> (r: Step)
    requires
        traces_spec(depth as int),
    ensures
        r == step_spec(depth as int, bounce),
{
    match bounce {
        Bounce::Missed => Step::Sky,
        Bounce::Absorbed => Step::Black,
        Bounce::Scattered => Step::Trace { depth: depth - 1 },
    }
}

/// How many scattered rays a path traces when it starts with `depth` left and
/// its rays meet `bounces` in turn.
pub open spec fn scatter_count(depth: int, bounces: Seq<Bounce>) -> nat
    decreases bounces.len(),
{
    if !traces_spec(depth) || bounces.len() == 0 {
        0
    } else {
        match step_spec(depth, bounces[0]) {
            Step::Trace { depth: d } => 1 + scatter_count(d as int, bounces.drop_first()),
            _ => 0,
        }
    }
}

/// Recursion is bounded: whatever the surfaces do, a path started with
/// `depth` left traces at most `depth` scattered rays, and none when `depth`
/// is 0 or below.
pub proof fn lemma_scatter_count_bounded(depth: i64, bounces: Seq<Bounce>)
    ensures
        scatter_count(depth as int, bounces) <= if depth > 0 {
            depth as int
        } else {
            0
        },
    decreases bounces.len(),
{
    if traces_spec(depth as int) && bounces.len() > 0 {
        if bounces[0] == Bounce::Scattered {
            lemma_scatter_count_bounded((depth - 1) as i64, bounces.drop_first());
        }
    }
}

} // verus!
