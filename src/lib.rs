//! Bluetooth device addresses and the RFCOMM socket records built from them.
pub mod addr;
pub mod socket;

pub use addr::BtAddr;
pub use socket::BluetoothProtocol;
