//! A renderer that is backed by one of two interchangeable backends.
//!
//! The [`selector`] decides, from the backends that a build enables, which
//! shape the renderer takes. The [`fallback`] dispatcher holds one of the two
//! backends and hands every call to it. The [`headless`] path builds the
//! dispatcher over the software backend and takes screenshots through it.
pub mod fallback;
pub mod headless;
pub mod selector;
