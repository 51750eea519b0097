//! Driver core for an external SDRAM device behind a microcontroller's
//! flexible memory controller (FMC).
//!
//! The crate has three layers:
//!
//! - a pin-capability registry ([`pins`]) recording which package pins can
//!   drive which controller signal roles, together with a bundle validator
//!   ([`bundle`]) that admits a pin set only when every role a configuration
//!   requires is filled, in order, by a capable pin;
//! - a controller handle ([`fmc`]) owning a model of the controller's
//!   SDRAM-related registers and the fixed bank address map;
//! - a bring-up sequencer ([`sdram`]) that programs timing registers from a
//!   device profile and drives the JEDEC cold-start command sequence,
//!   returning the usable memory window.
//!
//! All timing values scaled into controller clock cycles are rounded up
//! (never under-counting a device minimum), while the refresh interval is
//! rounded down (a refresh must never come late); see [`timing`].

pub mod bundle;
pub mod fmc;
pub mod is42s16400j;
pub mod is42s32800g;
pub mod pins;
pub mod sdram;
pub mod timing;

pub use bundle::{PinsSdramBank1, PinsSdramBank2};
pub use is42s16400j::Is42s16400j;
pub use is42s32800g::Is42s32800g;
pub use sdram::Sdram;
