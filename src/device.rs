//! Device control commands and validated configuration values.
use crate::error::RenogyError;
use crate::pdu::{FunctionCode, Pdu};
use crate::registers::{address_of, be16_bytes, word_to_bytes, Register};
use vstd::prelude::*;

verus! {

pub const SHUTDOWN_VALUE: u16 = 1;
pub const LOCK_VALUE: u16 = 0x5A5A;
pub const UNLOCK_VALUE: u16 = 0xA5A5;
pub const TEST_BEGIN_VALUE: u16 = 0x5A5A;
pub const TEST_END_VALUE: u16 = 0xA5A5;

/// Operations that change the state of the battery management system.
#[derive(Debug, Clone, Copy, PartialEq, Eq, Structural)]
pub enum DeviceCommand {
    /// Restore factory default settings.
    RestoreFactoryDefault,
    /// Clear stored history data.
    ClearHistory,
    /// Shut the device down.
    Shutdown,
    /// Lock the device against configuration changes.
    Lock,
    /// Unlock the device for configuration changes.
    Unlock,
    /// Begin test mode.
    TestBegin,
    /// End test mode.
    TestEnd,
}

/// The payload of a write-single-register request.
pub open spec fn write_single_payload(register: Register, value: u16) -> Seq<u8> {
    be16_bytes(address_of(register) as int) + be16_bytes(value as int)
}

/// The frame function code and payload that carry a command.
pub open spec fn command_frame(cmd: DeviceCommand) -> (FunctionCode, Seq<u8>) {
    match cmd {
        DeviceCommand::RestoreFactoryDefault => (FunctionCode::RestoreFactoryDefault, seq![0u8, 0u8, 0u8, 1u8]),
        DeviceCommand::ClearHistory => (FunctionCode::ClearHistory, seq![0u8, 0u8, 0u8, 1u8]),
        DeviceCommand::Shutdown => (
            FunctionCode::WriteSingleRegister,
            write_single_payload(Register::ShutdownCommand, SHUTDOWN_VALUE),
        ),
        DeviceCommand::Lock => (
            FunctionCode::WriteSingleRegister,
            write_single_payload(Register::LockControl, LOCK_VALUE),
        ),
        DeviceCommand::Unlock => (
            FunctionCode::WriteSingleRegister,
            write_single_payload(Register::LockControl, UNLOCK_VALUE),
        ),
        DeviceCommand::TestBegin => (
            FunctionCode::WriteSingleRegister,
            write_single_payload(Register::TestReady, TEST_BEGIN_VALUE),
        ),
        DeviceCommand::TestEnd => (
            FunctionCode::WriteSingleRegister,
            write_single_payload(Register::TestReady, TEST_END_VALUE),
        ),
    }
}

/// Whether a command must be bracketed by an unlock before and a lock after.
pub open spec fn needs_unlock(cmd: DeviceCommand) -> bool {
    cmd == DeviceCommand::RestoreFactoryDefault || cmd == DeviceCommand::ClearHistory
}

impl DeviceCommand {
    /// The request frame that performs this command on the device at
    /// `device_address`.
    pub fn create_pdu(&self, device_address: u8) -> (r: Pdu)
        ensures
            r.address == device_address,
            r.function_code == command_frame(*self).0,
            r.payload@ == command_frame(*self).1,
    {
        match self {
            DeviceCommand::RestoreFactoryDefault => {
                let payload = vec![0x00u8, 0x00u8, 0x00u8, 0x01u8];
                assert(payload@ =~= seq![0u8, 0u8, 0u8, 1u8]);
                Pdu::new(device_address, FunctionCode::RestoreFactoryDefault, payload)
            },
            DeviceCommand::ClearHistory => {
                let payload = vec![0x00u8, 0x00u8, 0x00u8, 0x01u8];
                assert(payload@ =~= seq![0u8, 0u8, 0u8, 1u8]);
                Pdu::new(device_address, FunctionCode::ClearHistory, payload)
            },
            DeviceCommand::Shutdown => {
                Self::create_write_pdu(device_address, Register::ShutdownCommand, SHUTDOWN_VALUE)
            },
            DeviceCommand::Lock => {
                Self::create_write_pdu(device_address, Register::LockControl, LOCK_VALUE)
            },
            DeviceCommand::Unlock => {
                Self::create_write_pdu(device_address, Register::LockControl, UNLOCK_VALUE)
            },
            DeviceCommand::TestBegin => {
                Self::create_write_pdu(device_address, Register::TestReady, TEST_BEGIN_VALUE)
            },
            DeviceCommand::TestEnd => {
                Self::create_write_pdu(device_address, Register::TestReady, TEST_END_VALUE)
            },
        }
    }

    fn create_write_pdu(device_address: u8, register: Register, value: u16) -> (r: Pdu)
        ensures
            r.address == device_address,
            r.function_code == FunctionCode::WriteSingleRegister,
            r.payload@ == write_single_payload(register, value),
    {
        let mut payload: Vec<u8> = Vec::new();
        word_to_bytes(register.address(), &mut payload);
        word_to_bytes(value, &mut payload);
        assert(payload@ =~= write_single_payload(register, value));
        Pdu::new(device_address, FunctionCode::WriteSingleRegister, payload)
    }

    pub fn requires_unlock(&self) -> (r: bool)
        ensures
            r == needs_unlock(*self),
    {
        match self {
            DeviceCommand::RestoreFactoryDefault => true,
            DeviceCommand::ClearHistory => true,
            _ => false,
        }
    }

    /// The commands to send, in order, to perform this one: an unlock before
    /// and a lock after where the command requires it.
    pub fn sequence(&self) -> (r: Vec<DeviceCommand>)
        ensures
            needs_unlock(*self) ==> r@ == seq![DeviceCommand::Unlock, *self, DeviceCommand::Lock],
            !needs_unlock(*self) ==> r@ == seq![*self],
    {
        let mut r: Vec<DeviceCommand> = Vec::new();
        if self.requires_unlock() {
            r.push(DeviceCommand::Unlock);
            r.push(*self);
            r.push(DeviceCommand::Lock);
        } else {
            r.push(*self);
        }
        assert(needs_unlock(*self) ==> r@ =~= seq![DeviceCommand::Unlock, *self, DeviceCommand::Lock]);
        assert(!needs_unlock(*self) ==> r@ =~= seq![*self]);
        r
    }
}

/// Identification strings and the unique code of a device.
#[derive(Debug, Clone, PartialEq, Eq)]
pub struct DeviceInfo {
    pub serial_number: String,
    pub manufacture_version: String,
    pub mainline_version: String,
    pub communication_protocol_version: String,
    pub battery_name: String,
    pub software_version: String,
    pub manufacturer_name: String,
    pub unique_identification_code: u32,
}

/// Charge and discharge power, each a percentage in `0..=100`.
#[derive(Debug, Clone, PartialEq, Eq, Structural)]
pub struct PowerSettings {
    pub charge_power_percent: u8,
    pub discharge_power_percent: u8,
}

pub const MAX_POWER_PERCENT: u8 = 100;

impl PowerSettings {
    /// Settings from two percentages; either above 100 is
    /// `InvalidRegisterRange`.
    pub fn new(charge_power_percent: u8, discharge_power_percent: u8) -> (r: Result<PowerSettings, RenogyError>)
        ensures
            charge_power_percent <= 100 && discharge_power_percent <= 100 ==> r == Ok::<PowerSettings, RenogyError>(
                PowerSettings { charge_power_percent, discharge_power_percent },
            ),
            !(charge_power_percent <= 100 && discharge_power_percent <= 100) ==> r == Err::<PowerSettings, RenogyError>(
                RenogyError::InvalidRegisterRange,
            ),
    {
        if !Self::is_valid_percent(charge_power_percent) || !Self::is_valid_percent(discharge_power_percent) {
            return Err(RenogyError::InvalidRegisterRange);
        }
        Ok(PowerSettings { charge_power_percent, discharge_power_percent })
    }

    pub fn is_valid_percent(percent: u8) -> (r: bool)
        ensures
            r == (percent <= 100),
    {
        percent <= MAX_POWER_PERCENT
    }
}

/// ACP broadcast, configure and shake settings, each in `1..=254`.
#[derive(Debug, Clone, PartialEq, Eq, Structural)]
pub struct AcpConfig {
    pub broadcast: u8,
    pub configure: u8,
    pub shake: u8,
}

pub const MIN_ACP_VALUE: u8 = 1;
pub const MAX_ACP_VALUE: u8 = 254;

/// Whether an ACP setting is in its permitted range.
pub open spec fn acp_value_ok(v: u8) -> bool {
    1 <= v <= 254
}

impl AcpConfig {
    /// A configuration from three settings; any outside `1..=254` is
    /// `InvalidRegisterRange`.
    pub fn new(broadcast: u8, configure: u8, shake: u8) -> (r: Result<AcpConfig, RenogyError>)
        ensures
            acp_value_ok(broadcast) && acp_value_ok(configure) && acp_value_ok(shake) ==> r == Ok::<AcpConfig, RenogyError>(
                AcpConfig { broadcast, configure, shake },
            ),
            !(acp_value_ok(broadcast) && acp_value_ok(configure) && acp_value_ok(shake)) ==> r == Err::<AcpConfig, RenogyError>(
                RenogyError::InvalidRegisterRange,
            ),
    {
        if !Self::is_valid_acp_value(broadcast) || !Self::is_valid_acp_value(configure)
            || !Self::is_valid_acp_value(shake) {
            return Err(RenogyError::InvalidRegisterRange);
        }
        Ok(AcpConfig { broadcast, configure, shake })
    }

    pub fn is_valid_acp_value(value: u8) -> (r: bool)
        ensures
            r == acp_value_ok(value),
    {
        value >= MIN_ACP_VALUE && value <= MAX_ACP_VALUE
    }
}

} // verus!
