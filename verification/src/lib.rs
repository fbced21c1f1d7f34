//! Frame logic of a render pass that draws quads with a custom shader, and
//! of the interactive state that steers the shader's view parameters.

pub mod custom_pass;
pub mod state;
