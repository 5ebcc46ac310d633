//! A reader stack for ISO/IEC 14443 Type A proximity cards.
//!
//! The crate has three layers. A front-end driver ([`fm175xx`], [`st25r39`])
//! exchanges single frames with a card through a register bus. The
//! anticollision layer ([`iso14443a`]) wakes the cards in the field, resolves
//! collisions between them and selects one. The block layer ([`iso_dep`])
//! turns a selected card into a channel for byte strings of any length. The
//! layers meet in the capabilities of [`traits`]. [`acr122u`] holds the
//! frames of a reader that does the lower layers itself.
//!
//! Nothing in the crate waits. Where a chip or a card takes time, a driver
//! starts the work and says, when asked, whether it is done, and a protocol
//! is a state machine that takes one answer at a time. The caller brings the
//! bus, the pins and the clock.
//!
//! A bus and a front-end keep a ghost record of what they have done, and the
//! contracts of the layers above say what they add to it ([`record`]).
//! [`bits`] says what the accessors of the two register maps do,
//! [`anticoll`] how the result of an anticollision frame is put together,
//! [`search`] how a calibration finds its settings, and [`bytes`] moves
//! bytes.
pub mod acr122u;
pub mod anticoll;
pub mod bits;
pub mod bytes;
pub mod fm175xx;
pub mod iso14443a;
pub mod iso_dep;
pub mod record;
pub mod search;
pub mod st25r39;
pub mod traits;
