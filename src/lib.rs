//! Monitoring and control of Renogy lithium battery management systems over
//! Modbus-RTU: frame codec, register catalog, device commands, snapshot
//! assembly, sample buffering and fleet roll-up.

pub mod address;
pub mod alarm;
pub mod alarm_names;
pub mod ble;
pub mod buffer;
pub mod dashboard;
pub mod device;
pub mod error;
pub mod metrics;
pub mod pdu;
pub mod query;
pub mod registers;
pub mod remote;
pub mod summary;
pub mod text;
pub mod transport;
pub mod view;
pub mod writer;

