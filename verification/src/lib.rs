//! Integer and text logic of a collection of fractal shaders and the
//! program that selects and presents them.

pub mod text;
pub mod swapchain;
pub mod iteration;
pub mod vertex;
pub mod shader;
pub mod window;
