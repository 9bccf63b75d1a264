//! Simulation mode: offline testing of generation logic.
//!
//! Simulation reuses the Drawing/Skip/Terminal contract of the generator
//! but replaces the live input poll with the generator's synthetic-input
//! hook, and removes publication, consumption waits and pacing entirely:
//! it makes no network call and enforces no delay. It simply accumulates
//! every Drawing's layer groups, in order, into one cumulative document
//! until the first Terminal.

use vstd::prelude::*;
use crate::art::{ArtIncrement, LivedrawArt, LivedrawArtSimulation};
use crate::preview::{drawn_concat, ended_only_last, indices_from, SimStep};

verus! {

/// Runs the whole artwork offline and returns the cumulative document.
///
/// The ghost log records every `draw_increment` call, in order: step `j`
/// drew index `j`, starting from zero, each index exactly once and none
/// after the first Terminal, which closes the log (unless the index space
/// itself ran out first). The returned document equals the concatenation,
/// in order, of the groups of every Drawing produced before the Terminal.
pub fn livedraw_start_simulation<T: LivedrawArt + LivedrawArtSimulation>(
    art: &mut T,
) -> (r: (Vec<T::Group>, Ghost<Seq<SimStep<T::Group>>>))
    ensures
        r.0@ == drawn_concat(r.1@),
        ended_only_last(r.1@),
        indices_from(r.1@, 0),
        r.1@.len() == usize::MAX || (r.1@.len() > 0 && r.1@.last() is Ended),
{
    let mut doc: Vec<T::Group> = Vec::new();
    let ghost mut log: Seq<SimStep<T::Group>> = Seq::empty();
    let mut i: usize = 0;
    loop
        invariant_except_break
            i == log.len(),
            forall|j: int| 0 <= j < log.len() ==> !((#[trigger] log[j]) is Ended),
        invariant
            doc@ == drawn_concat(log),
            ended_only_last(log),
            indices_from(log, 0),
        ensures
            doc@ == drawn_concat(log),
            ended_only_last(log),
            indices_from(log, 0),
            log.len() == usize::MAX || (log.len() > 0 && log.last() is Ended),
        decreases usize::MAX - i,
    {
        if i == usize::MAX {
            // the index space is exhausted; no further increment can be
            // addressed
            break;
        }
        let input = art.simulate_input(i);
        match art.draw_increment(&input, i) {
            ArtIncrement::End => {
                proof {
                    assert(log.push(SimStep::<T::Group>::Ended { index: i as int }).drop_last()
                        =~= log);
                    log = log.push(SimStep::Ended { index: i as int });
                }
                break;
            }
            ArtIncrement::Continue => {
                proof {
                    assert(log.push(SimStep::<T::Group>::Skipped { index: i as int }).drop_last()
                        =~= log);
                    log = log.push(SimStep::Skipped { index: i as int });
                }
                i = i + 1;
            }
            ArtIncrement::SVG(mut parts) => {
                let ghost gs = parts@;
                doc.append(&mut parts);
                proof {
                    assert(log.push(
                        SimStep::Drawn { index: i as int, groups: gs },
                    ).drop_last() =~= log);
                    log = log.push(SimStep::Drawn { index: i as int, groups: gs });
                }
                i = i + 1;
            }
        }
    }
    (doc, Ghost(log))
}

} // verus!
