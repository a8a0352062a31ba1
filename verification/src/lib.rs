//! Sandboxed PDF reading core: permitted-root management, containment-checked
//! path resolution, page-range windowing, image geometry, and the cancellable
//! page-iteration state machine, with the document engine's page count
//! (hayro) and the encoders (base64, url) behind trusted interfaces.

pub mod error;
pub mod geometry;
pub mod images;
pub mod params;
pub mod pdf;
pub mod range;
pub mod resolve;
pub mod roots;
pub mod strfmt;
pub mod text;
pub mod uri;
