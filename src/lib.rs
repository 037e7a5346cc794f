//! Decision and encoding logic of a path tracer: the parts of rendering that
//! work on plain values, with their contracts.
pub mod ppm;
pub mod nearest;
pub mod scatter;
pub mod path;
pub mod raster;
pub mod roots;
