//! Input decoding, per-frame decisions and screen-space layout for a small
//! top-down driving simulation.
pub mod intent;
pub mod frame;
pub mod view;
