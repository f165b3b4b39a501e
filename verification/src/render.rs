//! The image data set and the state it shares with its background loader.

pub mod image_data_set;
pub mod image_id;
pub mod laws;
pub mod loader;
pub mod qrcode;
pub mod registry;
