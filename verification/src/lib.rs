//! A verified core for a GPU-based Julia-set renderer.
//!
//! The library models the renderer's value types (fractal parameters,
//! image dimensions, colors in fixed-point form), the export cache that
//! decides when GPU resources may be reused, the interactive state
//! machine, the gradient and coordinate parsers, the device-ranking
//! logic, and the filename and pixel pipelines. GPU submission,
//! windowing, color-space conversion and file output are left to the
//! surrounding application, which drives them with values this library
//! has computed and checked.

pub mod compute;
pub mod device;
pub mod export;
pub mod fixed;
pub mod params;
pub mod parse;
pub mod render;
pub mod state;
pub mod text;

pub use export::CacheEntry;
pub use export::JuliaExport;
pub use params::Color;
pub use params::Complex;
pub use params::ImgDimensions;
pub use params::JuliaData;
pub use state::JuliaEvent;
pub use state::JuliaState;
pub use state::KeyCommand;
