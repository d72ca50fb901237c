//! Resolution of vector-image documents into render-ready geometry: length units,
//! shape outlines, cached clip-path and mask resources, and output sizing.

pub mod clippath;
pub mod document;
pub mod fit;
pub mod mask;
pub mod shapes;
pub mod units;
