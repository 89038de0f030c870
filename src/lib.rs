pub mod settings;
pub mod textures;
pub mod histogram_textures;
pub mod cdf;
pub mod histogram;
pub mod pixel;
pub mod pipeline;
pub mod phase;
pub mod queue;
pub mod passes;
pub mod views;
