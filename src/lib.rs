//! A three-screen application state machine driven by a single UI button.
//!
//! `state` holds the cyclic screen state and its transition rules; `button`
//! holds the per-frame reaction to the button's pointer interaction.

pub mod state;
pub mod button;
