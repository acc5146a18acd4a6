//! Camera pose projections for a renderer whose world exceeds single precision:
//! the exact parts of the pipeline (basis inversion by transpose, the byte
//! layout of the GPU camera blocks, and the mapping from held keys to a
//! movement direction).
pub mod bits;
pub mod logical;
pub mod gpu;
pub mod input;
