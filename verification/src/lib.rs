//! Incremental real-time generative-art scheduling core.
//!
//! The library verifies the increment scheduling state machine of a
//! "livedraw" run: sequencing of generation, publication of handshake
//! artifacts, consumption acknowledgement, minimum-delay pacing,
//! predictive re-preview on input change, and termination and cleanup.
//! All outside effects (HTTP polling, the handshake directory, SVG
//! rendering) are performed by a thin unverified driver that executes
//! the commands this core emits.

pub mod art;
pub mod input;
pub mod notify;
pub mod plotdata;
pub mod preview;
pub mod retry;
pub mod scheduler;
pub mod simulation;

pub use art::{ArtAction, ArtIncrement, LivedrawArt, LivedrawArtSimulation};
pub use input::Input;
pub use notify::{plot_update_body, PlotUpdateAction};
pub use plotdata::PenTravelMetadata;
pub use preview::generate_svg_all;
pub use retry::{RetryDecision, RetryPolicy};
pub use scheduler::{Command, Phase, Scheduler};
pub use simulation::livedraw_start_simulation;
