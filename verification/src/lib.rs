//! Planning of the synthetic keystrokes behind a "paste" shortcut.
//!
//! The crate decides *which* key events make up a paste on a given platform
//! and in which order they are delivered; it never touches an input device
//! itself. A caller owns the device, carries out one command at a time and
//! reports back how it went:
//!
//! ```text
//! let (mut run, mut command) = PasteRun::start(platform);
//! loop {
//!     let outcome = match command {
//!         Command::OpenDevice => /* create the device */,
//!         Command::Send(event) => /* deliver `event` */,
//!         Command::Abort => /* fatal: there is no device */,
//!         Command::Finish => break,
//!     };
//!     command = run.advance(outcome);
//! }
//! ```
//!
//! * [`platform`] tells the two platform families apart and names the
//!   modifier of each.
//! * [`plan`] holds the paste itself: modifier down, `v` clicked, modifier
//!   up.
//! * [`session`] is the step-by-step run sketched above, with the proofs of
//!   what it sends whatever the device reports.

pub mod keys;
pub mod plan;
pub mod platform;
pub mod session;

pub use keys::{Direction, Key, KeyEvent};
pub use plan::{paste_event, paste_sequence};
pub use platform::{paste_modifier, Platform};
pub use session::{Command, Outcome, PasteRun, Stage};
