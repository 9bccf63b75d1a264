//! The per-artwork generation interface consumed by the scheduling core.

use vstd::prelude::*;
use crate::input::Input;

verus! {

/// An action the generator asks the scheduler to run before generating a
/// given increment.
pub enum ArtAction {
    /// Announce `message` and block for the given number of milliseconds,
    /// while keeping the predictive preview fresh.
    Pause(String, u64),
    /// Post a chat notification immediately; does not block.
    ChatMessage(String),
}

/// The outcome of generating one increment.
pub enum ArtIncrement<G> {
    /// Layer groups to publish, conventionally one per color.
    SVG(Vec<G>),
    /// Nothing to draw at this index: advance without publishing, without
    /// waiting for consumption and without enforcing the minimum delay.
    Continue,
    /// The run is complete; no further increment may be requested.
    End,
}

/// A livedraw art piece: an artwork drawn incrementally in real time.
///
/// The scheduling core drives an implementation of this trait, asking it
/// for one increment at a time with a monotonically increasing index.
/// The drawable payload type `Group` is opaque to the core; it is carried
/// unchanged into the published artifacts.
pub trait LivedrawArt: Sized {
    /// The drawable payload of one color layer.
    type Group;

    /// Produces the part of the art to draw for `index` from the live
    /// `input` values.
    fn draw_increment(&mut self, input: &Input, index: usize) -> ArtIncrement<Self::Group>;

    /// Estimates the total number of increments, for progress reporting.
    fn estimate_total_increments(&self) -> usize;

    /// Actions to run before generating increment `index`.
    fn actions_before_increment(&self, index: usize) -> Vec<ArtAction> {
        Vec::new()
    }

    /// Bounds how many increments ahead the predictive preview may run.
    fn get_predictive_max_next_increments(&self) -> Option<usize> {
        None
    }

    /// Minimum pacing between two published increments, in milliseconds.
    fn delay_between_increments(&self) -> u64 {
        1000
    }
}

/// The synthetic-input hook used by simulation mode, so an artwork can be
/// exercised offline, without the control service.
pub trait LivedrawArtSimulation {
    /// Feeds a simulated input document for increment `index`.
    fn simulate_input(&mut self, index: usize) -> Input;
}

} // verus!
