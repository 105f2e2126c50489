//! Settings store of a hierarchical command-line parser.
//!
//! Each command of the parser owns one [`AppFlags`], a register with one bit
//! for each primitive [`AppSettings`]. The author of a command switches
//! settings by their identity, or by their name after resolving it; the
//! parsing engine reads them, latches what it finds on a command line in the
//! hidden settings, and hands the propagating settings down to the subcommand
//! that was invoked.

mod bits;
pub mod settings;
pub mod flags;
pub mod names;
pub mod propagate;

pub use flags::AppFlags;
pub use settings::AppSettings;
