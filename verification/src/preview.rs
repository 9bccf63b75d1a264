//! The predictive preview generator.
//!
//! On every observed input change the scheduler speculatively renders the
//! upcoming increments. The preview runs on an independent copy of the
//! generator, so the authoritative state is never touched, and may be
//! bounded by the generator's lookahead cap.

use vstd::prelude::*;
use crate::art::{ArtIncrement, LivedrawArt};
use crate::input::Input;

verus! {

/// The ghost record of one `draw_increment` call made by a generation
/// loop: the index handed to the call, what kind of increment came back,
/// and which groups it carried.
pub enum SimStep<G> {
    Drawn { index: int, groups: Seq<G> },
    Skipped { index: int },
    Ended { index: int },
}

/// The index a step's call used.
pub open spec fn sim_index<G>(step: SimStep<G>) -> int {
    match step {
        SimStep::Drawn { index, .. } => index,
        SimStep::Skipped { index } => index,
        SimStep::Ended { index } => index,
    }
}

/// The concatenation, in order, of the groups of every `Drawn` step.
pub open spec fn drawn_concat<G>(log: Seq<SimStep<G>>) -> Seq<G>
    decreases log.len(),
{
    if log.len() == 0 {
        Seq::empty()
    } else {
        drawn_concat(log.drop_last()) + match log.last() {
            SimStep::Drawn { groups, .. } => groups,
            _ => Seq::empty(),
        }
    }
}

/// Whether only the last step of a log, if any, is `Ended`.
pub open spec fn ended_only_last<G>(log: Seq<SimStep<G>>) -> bool {
    forall|j: int| 0 <= j < log.len() - 1 ==> !((#[trigger] log[j]) is Ended)
}

/// Whether the log's calls walked the indices upward one by one from
/// `start`.
pub open spec fn indices_from<G>(log: Seq<SimStep<G>>, start: int) -> bool {
    forall|j: int| 0 <= j < log.len() ==> sim_index(#[trigger] log[j]) == start + j
}

/// Why a generation loop from `start` stopped: it saw Terminal, it used
/// up the lookahead cap, or the index space ran out.
pub open spec fn preview_stop_reason<G>(
    log: Seq<SimStep<G>>,
    start: int,
    cap: Option<usize>,
) -> bool {
    ||| (log.len() > 0 && log.last() is Ended)
    ||| (cap matches Some(m) && log.len() == m + 1)
    ||| start + log.len() == usize::MAX
}

/// The full shape of a completed preview run from `start` under `cap`:
/// indices ascend one by one from `start`, only the last step may be
/// Terminal, and the run stopped for one of the admissible reasons.
pub open spec fn preview_run<G>(log: Seq<SimStep<G>>, start: int, cap: Option<usize>) -> bool {
    &&& ended_only_last(log)
    &&& indices_from(log, start)
    &&& preview_stop_reason(log, start, cap)
}

/// Runs the generation loop on an independent copy of `art`, starting at
/// `start_index`, accumulating the groups of every Drawing into a single
/// document, and stopping at Terminal or once more than `max_iterations`
/// steps have run (no cap means run to Terminal).
///
/// The returned ghost log records every call made on the copy, in order:
/// step `j` drew index `start_index + j`, the log is a completed run
/// (it stopped at Terminal, at the cap, or at the end of the index
/// space), and the returned document is exactly the in-order
/// concatenation of the drawn groups. The authoritative generator is
/// only read, never mutated.
pub fn generate_svg_all<T: LivedrawArt + Clone>(
    art: &T,
    input: &Input,
    start_index: usize,
    max_iterations: Option<usize>,
) -> (r: (Vec<T::Group>, Ghost<Seq<SimStep<T::Group>>>))
    ensures
        r.0@ == drawn_concat(r.1@),
        preview_run(r.1@, start_index as int, max_iterations),
        max_iterations matches Some(m) ==> r.1@.len() <= m + 1,
{
    let mut copy = art.clone();
    let mut doc: Vec<T::Group> = Vec::new();
    let ghost mut log: Seq<SimStep<T::Group>> = Seq::empty();
    let mut i: usize = start_index;
    loop
        invariant_except_break
            i - start_index == log.len(),
            forall|j: int| 0 <= j < log.len() ==> !((#[trigger] log[j]) is Ended),
        invariant
            start_index <= i,
            doc@ == drawn_concat(log),
            max_iterations matches Some(m) ==> i - start_index <= m + 1,
            ended_only_last(log),
            indices_from(log, start_index as int),
        ensures
            doc@ == drawn_concat(log),
            preview_run(log, start_index as int, max_iterations),
            max_iterations matches Some(m) ==> log.len() <= m + 1,
        decreases usize::MAX - i,
    {
        if let Some(m) = max_iterations {
            if i - start_index > m {
                break;
            }
        }
        if i == usize::MAX {
            // the index space is exhausted; no further increment can be
            // addressed
            break;
        }
        match copy.draw_increment(input, i) {
            ArtIncrement::End => {
                proof {
                    assert(log.push(SimStep::<T::Group>::Ended { index: i as int }).drop_last()
                        =~= log);
                    log = log.push(SimStep::Ended { index: i as int });
                }
                break;
            }
            ArtIncrement::Continue => {
                proof {
                    assert(log.push(SimStep::<T::Group>::Skipped { index: i as int }).drop_last()
                        =~= log);
                    log = log.push(SimStep::Skipped { index: i as int });
                }
                i = i + 1;
            }
            ArtIncrement::SVG(mut parts) => {
                let ghost gs = parts@;
                doc.append(&mut parts);
                proof {
                    assert(log.push(
                        SimStep::Drawn { index: i as int, groups: gs },
                    ).drop_last() =~= log);
                    log = log.push(SimStep::Drawn { index: i as int, groups: gs });
                }
                i = i + 1;
            }
        }
    }
    (doc, Ghost(log))
}

} // verus!
