//! Reference-guided upsampler: the verified logic around the model.
pub mod augmentation;
pub mod model;
pub mod pixels;
pub mod text;
pub mod training;
pub mod training_loop;
pub mod tui;

pub use model::RefGuidedUpsamplerConfig;
pub use training::TrainingEvent;
