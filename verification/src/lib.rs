//! Verified state transitions of the BLX chain pallets.
pub mod allocator;
pub mod blx_storage;
pub mod claimer;
pub mod loose_lookup;
pub mod primitives;
pub mod scale;
pub mod storage;
pub mod text;
pub mod water_balance;
