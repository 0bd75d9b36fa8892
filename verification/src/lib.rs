//! An image transcoding and color-fidelity-preserving codec engine.
//!
//! The library decodes PNG, JPEG and WebP images (HEIC arrives through a
//! native bridge as a decoded plane), re-encodes them, and preserves
//! embedded ICC color profiles across format boundaries — for WebP by
//! patching the RIFF container directly. A second subsystem predicts the
//! expected size reduction of a transcode from historical statistics or a
//! heuristic table.
//!
//! Every function here carries a contract; percentages are carried as
//! integers in basis points (hundredths of a percent) so that the
//! arithmetic is exact. Filesystem edges, the statistics store's SQL, and
//! the native encoder bridges live outside the library.

pub mod bytesutil;
pub mod container;
pub mod decode;
pub mod error;
pub mod formats;
pub mod output;
pub mod pixel;
pub mod png;
pub mod settings;
pub mod stats;
pub mod store;
