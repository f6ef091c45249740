//! Observing the values that flow through an `Option`, a `Result` or an
//! iterator without changing them: `tap` shows each value to an inspector and
//! hands it on as it was.

mod container;
mod sequence;

pub use container::{inspected, Tappable};
pub use sequence::{Tap, TappableIter};
