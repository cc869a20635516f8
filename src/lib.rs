//! Decoding of Remote-ID drone telemetry carried in 802.11 beacon frames.
//!
//! A captured frame passes through the radiotap reader, the 802.11 parser,
//! the vendor element locator, the pack splitter and the message decoders,
//! and ends as one [`upload_data::UploadData`] record per beacon.
pub mod wire;
pub mod message;
pub mod radiotap;
pub mod beacon;
pub mod packs;
pub mod upload_data;
pub mod packet;
