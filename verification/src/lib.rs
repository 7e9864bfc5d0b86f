//! Flight speeds of parrots, in exact integer arithmetic.
//!
//! A parrot is selected by a textual tag and configured by a coconut count, a
//! voltage and a nailed flag. Its speed follows from these alone. Speeds are
//! counted in thousandths of a unit and voltages in millivolts, so that every
//! result is an exact integer and every contract can be stated over `int`.

pub mod parrot;
pub mod speed;
pub mod text;
pub mod variant;

pub use crate::parrot::{Parrot, ParrotModel};
pub use crate::speed::SpeedRule;
pub use crate::variant::{ParrotError, ParrotVariant};
