//! Generic wrappers that track whether the value they hold has been exposed
//! to mutation since construction, or — for the resettable variant — since
//! the last explicit reset.

mod modify;
mod reset;

pub use modify::Modified;
pub use reset::Resetable;
