//! A verified driver for a minimal triangle-drawing surface.
//!
//! The library owns the logic of a graphics surface: which calls to make
//! against a graphics context, in what order, and how to react to what the
//! context answers. It never touches the context itself. Instead it emits
//! [`protocol::Command`] values and consumes [`protocol::Reply`] values; an
//! unverified shell performs each command against a real context and feeds
//! the answer back. Construction is driven step by step through
//! [`builder::Builder`]; a finished [`renderer::Renderer`] then produces the
//! command batches for drawing a frame and for releasing its GPU objects.

pub mod builder;
pub mod lifecycle;
pub mod protocol;
pub mod renderer;
