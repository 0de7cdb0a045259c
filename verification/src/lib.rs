//! A terminal-capability driver: translates a closed set of terminal
//! operations into the exact byte sequences a particular terminal
//! understands, using its terminfo capability database as the source of
//! truth.
//!
//! A [`driver::Driver`] is constructed only after every capability it
//! depends on has been found in the database, so translation never has to
//! report a missing capability at use time.

pub mod caps;
pub mod driver;
pub mod template;
pub mod tinfo;

pub use caps::DevFn;
pub use driver::Driver;
pub use driver::DriverError;
