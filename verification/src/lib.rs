//! Decoding of GeoJSON documents into geometry construction events.

pub mod dispatch;
pub mod document;
pub mod events;
pub mod feature;
pub mod geometry;
pub mod json;
pub mod sniff;
pub mod stream;
pub mod words;
