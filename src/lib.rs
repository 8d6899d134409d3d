pub mod shader;
pub mod texture;
pub mod viewport;
pub mod window;
