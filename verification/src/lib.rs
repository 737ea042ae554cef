//! Clock-tree sequencing and button-driven clock-mode rotation for a
//! single-LED, single-button microcontroller board.
//!
//! The board runs its core at 8 MHz, 32 MHz or 64 MHz and moves on to the
//! next of the three on every double click of its button, while its LED
//! blinks at a rate that follows the core clock. This library holds every
//! decision of that firmware and none of its hardware access:
//!
//! - [`clock`]: clock configurations, the effective frequency of one, and the
//!   flash wait states that a frequency needs;
//! - [`tree`]: what the clock tree holds, the steps that change it, and when a
//!   step may be taken;
//! - [`system`]: the ordered steps that reset the clock tree and that apply a
//!   configuration to it, and the timer setup of a pause;
//! - [`swo`]: the prescaler of the diagnostic output;
//! - [`mode`]: the ring of the three clock modes;
//! - [`button`]: the debounce and double-click engine with its LED blink;
//! - [`gpio`]: the LED's pin;
//! - [`driver`]: the top-level loop that ties these together.
//!
//! All of it is verified: each function against the mathematical statement of
//! what it computes, and the step sequences against the rule that the core
//! never runs on a clock that is off nor faster than flash is set up for.

pub mod button;
pub mod clock;
pub mod consts;
pub mod driver;
pub mod gpio;
pub mod mode;
pub mod swo;
pub mod system;
pub mod tree;
