pub mod device;
pub mod device_ids;
pub mod display;
pub mod mtu;
pub mod random;
pub mod text;
pub mod table;
