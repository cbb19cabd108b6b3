//! Packet conversion between protocol generations.

pub mod chunk_convert;
pub mod chunk_repack;
pub mod chunk_section;
pub mod dispatch;
pub mod items;
pub mod laws;
pub mod modern_to_v1_8;
pub mod outcome;
pub mod safe;
pub mod v1_12_2_to_v1_6_4;
pub mod v1_16_5_to_v1_12_2;
pub mod v1_20_4_to_v1_16_5;
pub mod v1_6_4_to_v1_12_2;
pub mod v1_6_4_to_v1_16_5;
pub mod v1_7_to_v1_8;
pub mod v1_8_to_modern;

pub use dispatch::{ConversionDirection, PacketConverter, Surroundings};
pub use outcome::{build_payload, split_id, ConversionResult};
