//! Laws of the packets: each states what becomes of a packet by the fields that it holds.

pub mod chunks;
pub mod fields;
pub mod for_1_8;
pub mod of_1_12_2;
pub mod of_1_16_5;
pub mod of_1_20_4;
pub mod of_1_6_4;
pub mod of_1_6_4_for_1_16_5;
pub mod of_1_7;
pub mod of_1_8;
pub mod routes;
