pub mod document_model;
pub mod kdl_loader;

pub use self::kdl_loader::{KdlAsset, KdlLoader, KdlLoaderError};
