//! An event-forwarding wrapper for `iced` widgets.
//!
//! A [`Wrapper`] holds one child element and up to three callbacks. It lays
//! out and draws exactly as its child does, and hands keyboard events, mouse
//! events and the size it was last laid out with to the callbacks, whose
//! messages it publishes.
//!
//! What is taken on trust of `iced` is gathered in [`host`] and, for the
//! sorting of events, in [`input`]; everything else is verified against the
//! contracts stated there. [`model`] holds the mathematical model of a
//! wrapper and [`laws`] what follows from it.

mod callback;
pub mod host;
pub mod input;
pub mod laws;
pub mod model;
pub mod state;
pub mod wrapper;

pub use input::Input;
pub use model::{Extent, Status, WrapperView};
pub use state::WrapperState;
pub use wrapper::{wrapper, Wrapper};
