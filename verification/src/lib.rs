//! A small image-viewer component that fetches a random animal picture (a
//! dog or a fox) from a fixed public endpoint and shows it. The component's
//! state, the transitions its messages cause, and rendering as a pure
//! function of the state live here; issuing the HTTP request and mounting
//! markup into a document are left to an embedding shell.

pub mod json;
pub mod viewer;
