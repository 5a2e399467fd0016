pub mod dim2d;
pub mod dim3d;
pub mod laws;
pub mod sandbox;
pub mod verletcore;
