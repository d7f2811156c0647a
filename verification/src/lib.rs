//! Engine for a short-lived "chase and capture" interaction between two
//! on-screen movable entities: the user's main surface (the pursuer) and an
//! ephemeral pumpkin decoy (the target). The windowing layer itself is an
//! external collaborator; this crate holds the session lifecycle, the shared
//! flag state, and the geometry and motion decisions, all verified.

pub mod follow;
pub mod geometry;
pub mod retry;
pub mod spawn;
pub mod state;
pub mod walk;

pub use geometry::Bounds;
pub use state::ChaseEngine;
