use renogy_rs::error::{ModbusExceptionCode, RenogyError};
use renogy_rs::pdu::{FunctionCode, Pdu};
use renogy_rs::transport::{
    complete_exchange, io_to_renogy_error, custom_request, exchange_plan, parse_read_response, read_request,
    write_multiple_request, ExchangeOutcome, ExchangeStep, DEFAULT_TIMEOUT_MS,
};

#[test]
fn pdu_encode_read_cell_count() {
    let pdu = read_request(1, 5000, 1);
    let frame = pdu.serialize();
    assert_eq!(&frame[..6], &[0x01, 0x03, 0x13, 0x88, 0x00, 0x01]);
    assert_eq!(frame.len(), 8);
    assert_eq!(&frame[6..], &[0x00, 0xA4]);
}

#[test]
fn crc_matches_reference_frame() {
    let pdu = Pdu::new(1, FunctionCode::ReadHoldingRegisters, vec![0x00, 0x00, 0x00, 0x01]);
    assert_eq!(pdu.serialize(), vec![0x01, 0x03, 0x00, 0x00, 0x00, 0x01, 0x84, 0x0A]);
}

#[test]
fn frame_round_trip() {
    for payload in [vec![], vec![0x13, 0x88, 0x00, 0x01], vec![0xFF; 40]] {
        for fc in [
            FunctionCode::ReadHoldingRegisters,
            FunctionCode::WriteSingleRegister,
            FunctionCode::WriteMultipleRegisters,
            FunctionCode::RestoreFactoryDefault,
            FunctionCode::ClearHistory,
        ] {
            let pdu = Pdu::new(0x30, fc, payload.clone());
            assert_eq!(Pdu::deserialize(&pdu.serialize()), Ok(pdu));
        }
    }
}

#[test]
fn tampered_byte_is_crc_mismatch() {
    let frame = Pdu::new(1, FunctionCode::ReadHoldingRegisters, vec![0x13, 0x88, 0x00, 0x11]).serialize();
    for i in 0..frame.len() - 2 {
        for flip in [0x01u8, 0x80, 0xFF] {
            let mut bad = frame.clone();
            bad[i] ^= flip;
            assert_eq!(Pdu::deserialize(&bad), Err(RenogyError::CrcMismatch));
        }
    }
}

#[test]
fn short_frame_is_invalid() {
    assert_eq!(Pdu::deserialize(&[0x01, 0x03, 0x00]), Err(RenogyError::InvalidData));
    assert_eq!(Pdu::deserialize(&[]), Err(RenogyError::InvalidData));
}

fn with_crc(body: &[u8]) -> Vec<u8> {
    let crc = crc::Crc::<u16>::new(&crc::CRC_16_MODBUS).checksum(body);
    let mut v = body.to_vec();
    v.extend_from_slice(&crc.to_le_bytes());
    v
}

#[test]
fn exception_response_is_typed() {
    let frame = with_crc(&[0x01, 0x83, 0x02]);
    assert_eq!(
        Pdu::deserialize(&frame),
        Err(RenogyError::ModbusException(ModbusExceptionCode::IllegalDataAddress))
    );
    let frame = with_crc(&[0x01, 0x83, 0x07]);
    assert_eq!(Pdu::deserialize(&frame), Err(RenogyError::InvalidData));
}

#[test]
fn unknown_function_code_is_invalid() {
    let frame = with_crc(&[0x01, 0x04, 0x00]);
    assert_eq!(Pdu::deserialize(&frame), Err(RenogyError::InvalidData));
}

#[test]
fn exception_codes_decode() {
    assert_eq!(ModbusExceptionCode::from_u8(0x0B), Some(ModbusExceptionCode::GatewayTargetDeviceFailedToRespond));
    assert_eq!(ModbusExceptionCode::from_u8(0x07), None);
    assert_eq!(ModbusExceptionCode::SlaveDeviceBusy.code(), 0x06);
    assert_eq!(FunctionCode::from_u8(0x79), Some(FunctionCode::ClearHistory));
    assert_eq!(FunctionCode::from_u8(0x04), None);
    assert!(FunctionCode::WriteMultipleRegisters.is_write_operation());
    assert!(!FunctionCode::ReadHoldingRegisters.is_write_operation());
}

#[test]
fn read_response_words() {
    assert_eq!(parse_read_response(&[0x04, 0x00, 0x21, 0x00, 0x22], 2), Ok(vec![0x21, 0x22]));
    assert_eq!(parse_read_response(&[0x04, 0x00, 0x21, 0x00, 0x22], 1), Ok(vec![0x21]));
    assert_eq!(parse_read_response(&[], 1), Err(RenogyError::InvalidData));
    assert_eq!(parse_read_response(&[0x04, 0x00, 0x21], 2), Err(RenogyError::InvalidData));
}

#[test]
fn write_multiple_payload_layout() {
    let pdu = write_multiple_request(1, 5200, &[0x0102, 0x0304]);
    assert_eq!(pdu.function_code, FunctionCode::WriteMultipleRegisters);
    assert_eq!(pdu.payload, vec![0x14, 0x50, 0x00, 0x02, 0x04, 0x01, 0x02, 0x03, 0x04]);
}

#[test]
fn custom_request_codes() {
    let pdu = custom_request(2, 0x78, &[0, 0, 0, 1]).unwrap();
    assert_eq!(pdu.function_code, FunctionCode::RestoreFactoryDefault);
    assert_eq!(pdu.payload, vec![0, 0, 0, 1]);
    assert_eq!(custom_request(2, 0x42, &[]), Err(RenogyError::InvalidData));
}

#[test]
fn ble_timeout_and_drain_order() {
    assert_eq!(complete_exchange(ExchangeOutcome::TimedOut), Err(RenogyError::Bluetooth("timeout".to_string())));
    assert_eq!(
        complete_exchange(ExchangeOutcome::ChannelClosed),
        Err(RenogyError::Bluetooth("channel closed".to_string()))
    );
    let request = read_request(0x30, 5000, 1);
    let plan = exchange_plan(&request, DEFAULT_TIMEOUT_MS);
    assert_eq!(plan[0], ExchangeStep::DrainStale);
    assert_eq!(plan[1], ExchangeStep::Write(request.serialize()));
    assert_eq!(plan[2], ExchangeStep::AwaitResponse(5000));
    let reply = Pdu::new(0x30, FunctionCode::ReadHoldingRegisters, vec![2, 0, 4]);
    assert_eq!(complete_exchange(ExchangeOutcome::Response(reply.serialize())), Ok(reply));
}

#[test]
fn io_errors_map_by_kind() {
    let e = std::io::Error::new(std::io::ErrorKind::InvalidData, "bad frame");
    assert_eq!(
        io_to_renogy_error(e.kind() == std::io::ErrorKind::InvalidData, e.to_string()),
        RenogyError::InvalidData
    );
    let e = std::io::Error::new(std::io::ErrorKind::TimedOut, "no answer");
    assert_eq!(
        io_to_renogy_error(e.kind() == std::io::ErrorKind::InvalidData, e.to_string()),
        RenogyError::Io("no answer".to_string())
    );
}
