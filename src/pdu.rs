//! Modbus-RTU frames: `[slave, function, ...payload, crc_lo, crc_hi]`, with a
//! CRC-16/MODBUS over everything before the CRC.
use crate::error::{exception_of, ModbusExceptionCode, RenogyError};
use vstd::prelude::*;

verus! {

/// The CRC-16/MODBUS checksum of a byte sequence.
pub uninterp spec fn modbus_crc(data: Seq<u8>) -> u16;

/// Relies on `crc::Crc::<u16>::checksum` with the `CRC_16_MODBUS` algorithm:
/// the checksum is a function of the bytes alone.
#[verifier::external_body]
fn crc16_modbus(data: &[u8]) -> (r: u16)
    ensures
        r == modbus_crc(data@),
{
    crc::Crc::<u16>::new(&crc::CRC_16_MODBUS).checksum(data)
}

/// The function codes this library sends and accepts.
#[derive(Debug, PartialEq, Eq, Clone, Copy, Hash, Structural)]
pub enum FunctionCode {
    ReadHoldingRegisters,
    WriteSingleRegister,
    WriteMultipleRegisters,
    RestoreFactoryDefault,
    ClearHistory,
}

/// The wire byte of a function code.
pub open spec fn function_byte(fc: FunctionCode) -> u8 {
    match fc {
        FunctionCode::ReadHoldingRegisters => 0x03,
        FunctionCode::WriteSingleRegister => 0x06,
        FunctionCode::WriteMultipleRegisters => 0x10,
        FunctionCode::RestoreFactoryDefault => 0x78,
        FunctionCode::ClearHistory => 0x79,
    }
}

/// The function code that a byte denotes, if any.
pub open spec fn function_of(code: u8) -> Option<FunctionCode> {
    if code == 0x03 {
        Some(FunctionCode::ReadHoldingRegisters)
    } else if code == 0x06 {
        Some(FunctionCode::WriteSingleRegister)
    } else if code == 0x10 {
        Some(FunctionCode::WriteMultipleRegisters)
    } else if code == 0x78 {
        Some(FunctionCode::RestoreFactoryDefault)
    } else if code == 0x79 {
        Some(FunctionCode::ClearHistory)
    } else {
        None
    }
}

/// Whether a function code changes device state.
pub open spec fn is_write_code(fc: FunctionCode) -> bool {
    fc != FunctionCode::ReadHoldingRegisters
}

impl FunctionCode {
    pub fn from_u8(code: u8) -> (r: Option<FunctionCode>)
        ensures
            r == function_of(code),
    {
        match code {
            0x03 => Some(FunctionCode::ReadHoldingRegisters),
            0x06 => Some(FunctionCode::WriteSingleRegister),
            0x10 => Some(FunctionCode::WriteMultipleRegisters),
            0x78 => Some(FunctionCode::RestoreFactoryDefault),
            0x79 => Some(FunctionCode::ClearHistory),
            _ => None,
        }
    }

    /// The wire byte of this function code.
    pub fn as_u8(self) -> (r: u8)
        ensures
            r == function_byte(self),
            function_of(r) == Some(self),
            r < 0x80,
    {
        match self {
            FunctionCode::ReadHoldingRegisters => 0x03,
            FunctionCode::WriteSingleRegister => 0x06,
            FunctionCode::WriteMultipleRegisters => 0x10,
            FunctionCode::RestoreFactoryDefault => 0x78,
            FunctionCode::ClearHistory => 0x79,
        }
    }

    pub fn is_write_operation(self) -> (r: bool)
        ensures
            r == is_write_code(self),
    {
        match self {
            FunctionCode::ReadHoldingRegisters => false,
            FunctionCode::WriteSingleRegister => true,
            FunctionCode::WriteMultipleRegisters => true,
            FunctionCode::RestoreFactoryDefault => true,
            FunctionCode::ClearHistory => true,
        }
    }
}

/// One request or response frame, without its CRC.
#[derive(Debug, Clone, PartialEq, Eq)]
pub struct Pdu {
    pub address: u8,
    pub function_code: FunctionCode,
    pub payload: Vec<u8>,
}

/// The mathematical value of a frame.
pub struct PduView {
    pub address: u8,
    pub function_code: FunctionCode,
    pub payload: Seq<u8>,
}

impl View for Pdu {
    type V = PduView;

    open spec fn view(&self) -> PduView {
        PduView { address: self.address, function_code: self.function_code, payload: self.payload@ }
    }
}

/// The little-endian bytes of a CRC.
pub open spec fn crc_bytes(crc: u16) -> Seq<u8> {
    seq![(crc % 256) as u8, (crc / 256) as u8]
}

/// The bytes that the CRC covers: address, function code and payload.
pub open spec fn frame_body(p: PduView) -> Seq<u8> {
    seq![p.address, function_byte(p.function_code)] + p.payload
}

/// The full wire form of a frame.
pub open spec fn frame_bytes(p: PduView) -> Seq<u8> {
    frame_body(p) + crc_bytes(modbus_crc(frame_body(p)))
}

/// The CRC carried by the two trailing bytes of a frame of at least two bytes.
pub open spec fn received_crc(frame: Seq<u8>) -> int {
    frame[frame.len() - 2] + 256 * frame[frame.len() - 1]
}

/// What decoding a received frame yields.
pub open spec fn decode_frame(frame: Seq<u8>) -> Result<PduView, RenogyError> {
    if frame.len() < 4 {
        Err(RenogyError::InvalidData)
    } else {
        let data = frame.subrange(0, frame.len() - 2);
        if modbus_crc(data) as int != received_crc(frame) {
            Err(RenogyError::CrcMismatch)
        } else if data[1] >= 0x80 {
            if data.len() >= 3 && exception_of(data[2]) is Some {
                Err(RenogyError::ModbusException(exception_of(data[2])->Some_0))
            } else {
                Err(RenogyError::InvalidData)
            }
        } else {
            match function_of(data[1]) {
                Some(fc) => Ok(
                    PduView { address: data[0], function_code: fc, payload: data.subrange(2, data.len() as int) },
                ),
                None => Err(RenogyError::InvalidData),
            }
        }
    }
}

/// Copies a slice of bytes into a new vector.
pub fn bytes_to_vec(s: &[u8], start: usize, end: usize) -> (r: Vec<u8>)
    requires
        start <= end <= s@.len(),
    ensures
        r@ == s@.subrange(start as int, end as int),
{
    let mut r: Vec<u8> = Vec::with_capacity(end - start);
    let mut i: usize = start;
    while i < end
        invariant
            start <= i <= end <= s@.len(),
            r@ == s@.subrange(start as int, i as int),
        decreases end - i,
    {
        r.push(s[i]);
        i = i + 1;
    }
    r
}

impl Pdu {
    pub fn new(address: u8, function_code: FunctionCode, payload: Vec<u8>) -> (r: Pdu)
        ensures
            r.address == address,
            r.function_code == function_code,
            r.payload@ == payload@,
    {
        Pdu { address, function_code, payload }
    }

    /// The wire form: address, function code, payload, then the CRC low byte
    /// first.
    pub fn serialize(&self) -> (r: Vec<u8>)
        ensures
            r@ == frame_bytes(self@),
    {
        let mut frame: Vec<u8> = Vec::new();
        frame.push(self.address);
        frame.push(self.function_code.as_u8());
        let mut i: usize = 0;
        while i < self.payload.len()
            invariant
                i <= self.payload@.len(),
                frame@ == seq![self.address, function_byte(self.function_code)]
                    + self.payload@.subrange(0, i as int),
            decreases self.payload@.len() - i,
        {
            frame.push(self.payload[i]);
            i = i + 1;
        }
        assert(self.payload@.subrange(0, i as int) =~= self.payload@);
        let crc = crc16_modbus(frame.as_slice());
        frame.push((crc % 256) as u8);
        frame.push((crc / 256) as u8);
        assert(frame@ =~= frame_bytes(self@));
        frame
    }

    pub fn is_write_operation(&self) -> (r: bool)
        ensures
            r == is_write_code(self.function_code),
    {
        self.function_code.is_write_operation()
    }

    /// Decodes a received frame: shorter than four bytes is `InvalidData`, a
    /// CRC that does not match is `CrcMismatch`, an exception response is
    /// `ModbusException`, and an unknown function code is `InvalidData`.
    pub fn deserialize(frame: &[u8]) -> (r: Result<Pdu, RenogyError>)
        ensures
            match r {
                Ok(p) => decode_frame(frame@) == Ok::<PduView, RenogyError>(p@),
                Err(e) => decode_frame(frame@) == Err::<PduView, RenogyError>(e),
            },
    {
        if frame.len() < 4 {
            return Err(RenogyError::InvalidData);
        }
        let n = frame.len();
        let data = bytes_to_vec(frame, 0, n - 2);
        let expected_crc = crc16_modbus(data.as_slice());
        let actual_crc: u16 = frame[n - 2] as u16 + 256 * (frame[n - 1] as u16);
        if expected_crc != actual_crc {
            return Err(RenogyError::CrcMismatch);
        }
        let address = data[0];
        let function_code_byte = data[1];
        if function_code_byte >= 0x80 {
            if data.len() >= 3 {
                match ModbusExceptionCode::from_u8(data[2]) {
                    Some(code) => {
                        return Err(RenogyError::ModbusException(code));
                    },
                    None => {},
                }
            }
            return Err(RenogyError::InvalidData);
        }
        match FunctionCode::from_u8(function_code_byte) {
            Some(function_code) => {
                let payload = bytes_to_vec(frame, 2, n - 2);
                assert(payload@ =~= data@.subrange(2, data@.len() as int));
                Ok(Pdu { address, function_code, payload })
            },
            None => Err(RenogyError::InvalidData),
        }
    }
}

/// Decoding the wire form of any frame gives the frame back.
pub proof fn lemma_frame_round_trip(p: PduView)
    ensures
        decode_frame(frame_bytes(p)) == Ok::<PduView, RenogyError>(p),
{
    let body = frame_body(p);
    let frame = frame_bytes(p);
    let crc = modbus_crc(body);
    assert(frame.subrange(0, frame.len() - 2) =~= body);
    assert(received_crc(frame) == crc as int);
    assert(body.subrange(2, body.len() as int) =~= p.payload);
}

/// A frame whose trailing bytes disagree with the CRC of the rest is refused
/// as a CRC mismatch, whatever else it holds.
pub proof fn lemma_tampered_frame_refused(frame: Seq<u8>)
    requires
        frame.len() >= 4,
        modbus_crc(frame.subrange(0, frame.len() - 2)) as int != received_crc(frame),
    ensures
        decode_frame(frame) == Err::<PduView, RenogyError>(RenogyError::CrcMismatch),
{
}

} // verus!
