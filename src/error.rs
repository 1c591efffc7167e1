//! Error taxonomy shared by the codec, the register catalog and the transports.
use vstd::prelude::*;

verus! {

/// Exception codes that a device reports in a Modbus exception response.
#[derive(Debug, Clone, Copy, PartialEq, Eq, Structural)]
pub enum ModbusExceptionCode {
    IllegalFunction,
    IllegalDataAddress,
    IllegalDataValue,
    SlaveDeviceFailure,
    Acknowledge,
    SlaveDeviceBusy,
    MemoryParityError,
    GatewayPathUnavailable,
    GatewayTargetDeviceFailedToRespond,
}

/// The exception code carried by the byte `code`, if it is one of the nine
/// codes the protocol defines.
pub open spec fn exception_of(code: u8) -> Option<ModbusExceptionCode> {
    if code == 0x01 {
        Some(ModbusExceptionCode::IllegalFunction)
    } else if code == 0x02 {
        Some(ModbusExceptionCode::IllegalDataAddress)
    } else if code == 0x03 {
        Some(ModbusExceptionCode::IllegalDataValue)
    } else if code == 0x04 {
        Some(ModbusExceptionCode::SlaveDeviceFailure)
    } else if code == 0x05 {
        Some(ModbusExceptionCode::Acknowledge)
    } else if code == 0x06 {
        Some(ModbusExceptionCode::SlaveDeviceBusy)
    } else if code == 0x08 {
        Some(ModbusExceptionCode::MemoryParityError)
    } else if code == 0x0A {
        Some(ModbusExceptionCode::GatewayPathUnavailable)
    } else if code == 0x0B {
        Some(ModbusExceptionCode::GatewayTargetDeviceFailedToRespond)
    } else {
        None
    }
}

/// The byte that encodes an exception code on the wire.
pub open spec fn exception_byte(code: ModbusExceptionCode) -> u8 {
    match code {
        ModbusExceptionCode::IllegalFunction => 0x01,
        ModbusExceptionCode::IllegalDataAddress => 0x02,
        ModbusExceptionCode::IllegalDataValue => 0x03,
        ModbusExceptionCode::SlaveDeviceFailure => 0x04,
        ModbusExceptionCode::Acknowledge => 0x05,
        ModbusExceptionCode::SlaveDeviceBusy => 0x06,
        ModbusExceptionCode::MemoryParityError => 0x08,
        ModbusExceptionCode::GatewayPathUnavailable => 0x0A,
        ModbusExceptionCode::GatewayTargetDeviceFailedToRespond => 0x0B,
    }
}

impl ModbusExceptionCode {
    pub fn from_u8(code: u8) -> (r: Option<ModbusExceptionCode>)
        ensures
            r == exception_of(code),
    {
        match code {
            0x01 => Some(ModbusExceptionCode::IllegalFunction),
            0x02 => Some(ModbusExceptionCode::IllegalDataAddress),
            0x03 => Some(ModbusExceptionCode::IllegalDataValue),
            0x04 => Some(ModbusExceptionCode::SlaveDeviceFailure),
            0x05 => Some(ModbusExceptionCode::Acknowledge),
            0x06 => Some(ModbusExceptionCode::SlaveDeviceBusy),
            0x08 => Some(ModbusExceptionCode::MemoryParityError),
            0x0A => Some(ModbusExceptionCode::GatewayPathUnavailable),
            0x0B => Some(ModbusExceptionCode::GatewayTargetDeviceFailedToRespond),
            _ => None,
        }
    }

    /// The wire byte of this code.
    pub fn code(&self) -> (r: u8)
        ensures
            r == exception_byte(*self),
            exception_of(r) == Some(*self),
    {
        match self {
            ModbusExceptionCode::IllegalFunction => 0x01,
            ModbusExceptionCode::IllegalDataAddress => 0x02,
            ModbusExceptionCode::IllegalDataValue => 0x03,
            ModbusExceptionCode::SlaveDeviceFailure => 0x04,
            ModbusExceptionCode::Acknowledge => 0x05,
            ModbusExceptionCode::SlaveDeviceBusy => 0x06,
            ModbusExceptionCode::MemoryParityError => 0x08,
            ModbusExceptionCode::GatewayPathUnavailable => 0x0A,
            ModbusExceptionCode::GatewayTargetDeviceFailedToRespond => 0x0B,
        }
    }

    /// Human-readable description, with the code in hexadecimal.
    pub fn description(&self) -> (r: &'static str) {
        match self {
            ModbusExceptionCode::IllegalFunction => "Illegal function (01h)",
            ModbusExceptionCode::IllegalDataAddress => "Illegal data address (02h)",
            ModbusExceptionCode::IllegalDataValue => "Illegal data value (03h)",
            ModbusExceptionCode::SlaveDeviceFailure => "Slave device failure (04h)",
            ModbusExceptionCode::Acknowledge => "Acknowledge (05h)",
            ModbusExceptionCode::SlaveDeviceBusy => "Slave device busy (06h)",
            ModbusExceptionCode::MemoryParityError => "Memory parity error (08h)",
            ModbusExceptionCode::GatewayPathUnavailable => "Gateway path unavailable (0Ah)",
            ModbusExceptionCode::GatewayTargetDeviceFailedToRespond => {
                "Gateway target device failed to respond (0Bh)"
            },
        }
    }
}

/// Every failure the library reports.
#[derive(Debug, Clone, PartialEq, Eq)]
pub enum RenogyError {
    /// A frame or payload that is too short or otherwise malformed.
    InvalidData,
    /// The received CRC differs from the one computed over the frame.
    CrcMismatch,
    /// A failure of the underlying serial or HTTP link, with its message.
    Io(String),
    /// A well-formed exception response from the device.
    ModbusException(ModbusExceptionCode),
    /// A register and value kind that cannot be written together.
    UnsupportedOperation,
    /// A device control sequence that did not complete.
    DeviceControlFailed,
    /// A configuration value outside its permitted domain.
    InvalidRegisterRange,
    /// A write that the device did not acknowledge.
    WriteOperationFailed,
    /// A Bluetooth-specific failure, with its cause.
    Bluetooth(String),
}

} // verus!
