//! Orchestration core of a streaming media pipeline runtime.
//!
//! The library models the container hierarchy that holds processing elements,
//! the top-level pipeline that manages a shared notion of time across those
//! elements, the ordered message channel used to report events to a
//! controlling context, and the algorithm that selects which clock governs
//! playback.  Individual processing elements (sources, filters, sinks) are
//! outside collaborators: the library describes them by their state-machine
//! behaviour alone.

pub mod bin;
pub mod bus;
pub mod clock;
pub mod element;
pub mod error;
pub mod parse;
pub mod pipeline;
