pub mod buffer;
pub mod state;
pub mod vertex;
