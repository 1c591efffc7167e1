//! Transport-side logic shared by the serial and Bluetooth bindings: request
//! payloads, response parsing, the Bluetooth request/response exchange,
//! error mapping and address discovery.
use crate::error::RenogyError;
use crate::pdu::{frame_bytes, function_of, FunctionCode, Pdu, PduView};
use crate::registers::{be16, be16_bytes, word_to_bytes};
use crate::query::{BatteryInfo, BatteryQuery};
use crate::summary::snapshot_wf;
use vstd::prelude::*;

verus! {

/// How long a Bluetooth exchange waits for its response, in milliseconds.
pub const DEFAULT_TIMEOUT_MS: u64 = 5000;

/// Name prefix of the Bluetooth bridges this library talks to.
pub const BT2_NAME_PREFIX: &'static str = "BT-TH-";
/// Characteristic that takes request frames.
pub const BT2_WRITE_CHAR_UUID: &'static str = "0000ffd1-0000-1000-8000-00805f9b34fb";
/// Characteristic that notifies response bytes.
pub const BT2_NOTIFY_CHAR_UUID: &'static str = "0000fff1-0000-1000-8000-00805f9b34fb";

/// The two physical links.
#[derive(Debug, Clone, Copy, PartialEq, Eq, Structural)]
pub enum TransportType {
    Bt2,
    Serial,
}

/// The first and last address of the band where devices are looked for.
pub open spec fn scan_band(t: TransportType) -> (u8, u8) {
    match t {
        TransportType::Bt2 => (0x30, 0x3F),
        TransportType::Serial => (0x01, 0x10),
    }
}

/// The inclusive address band scanned by default on a link.
pub fn default_scan_range(t: TransportType) -> (r: (u8, u8))
    ensures
        r == scan_band(t),
{
    match t {
        TransportType::Bt2 => (0x30, 0x3F),
        TransportType::Serial => (0x01, 0x10),
    }
}

/// A read-holding-registers request.
pub fn read_request(slave: u8, addr: u16, quantity: u16) -> (r: Pdu)
    ensures
        r.address == slave,
        r.function_code == FunctionCode::ReadHoldingRegisters,
        r.payload@ == be16_bytes(addr as int) + be16_bytes(quantity as int),
{
    let mut payload: Vec<u8> = Vec::new();
    word_to_bytes(addr, &mut payload);
    word_to_bytes(quantity, &mut payload);
    Pdu::new(slave, FunctionCode::ReadHoldingRegisters, payload)
}

/// A write-single-register request.
pub fn write_single_request(slave: u8, addr: u16, value: u16) -> (r: Pdu)
    ensures
        r.address == slave,
        r.function_code == FunctionCode::WriteSingleRegister,
        r.payload@ == be16_bytes(addr as int) + be16_bytes(value as int),
{
    let mut payload: Vec<u8> = Vec::new();
    word_to_bytes(addr, &mut payload);
    word_to_bytes(value, &mut payload);
    Pdu::new(slave, FunctionCode::WriteSingleRegister, payload)
}

/// The bytes of a word sequence, each word high byte first.
pub open spec fn words_be(w: Seq<u16>) -> Seq<u8>
    decreases w.len(),
{
    if w.len() == 0 {
        Seq::empty()
    } else {
        words_be(w.drop_last()) + be16_bytes(w.last() as int)
    }
}

/// A write-multiple-registers request: address, quantity, byte count, then
/// the words.
pub fn write_multiple_request(slave: u8, addr: u16, values: &[u16]) -> (r: Pdu)
    requires
        values@.len() <= 127,
    ensures
        r.address == slave,
        r.function_code == FunctionCode::WriteMultipleRegisters,
        r.payload@ == be16_bytes(addr as int) + be16_bytes(values@.len() as int) + seq![
            (2 * values@.len()) as u8,
        ] + words_be(values@),
{
    let mut payload: Vec<u8> = Vec::new();
    word_to_bytes(addr, &mut payload);
    word_to_bytes(values.len() as u16, &mut payload);
    payload.push((values.len() * 2) as u8);
    let ghost head = payload@;
    let mut i: usize = 0;
    while i < values.len()
        invariant
            i <= values@.len(),
            payload@ == head + words_be(values@.subrange(0, i as int)),
        decreases values@.len() - i,
    {
        word_to_bytes(values[i], &mut payload);
        assert(values@.subrange(0, i + 1).drop_last() =~= values@.subrange(0, i as int));
        assert(payload@ =~= head + words_be(values@.subrange(0, i + 1)));
        i = i + 1;
    }
    assert(values@.subrange(0, i as int) =~= values@);
    Pdu::new(slave, FunctionCode::WriteMultipleRegisters, payload)
}

/// A request with a custom function code; a code this library does not know
/// is `InvalidData`.
pub fn custom_request(slave: u8, function_code: u8, data: &[u8]) -> (r: Result<Pdu, RenogyError>)
    ensures
        match function_of(function_code) {
            Some(fc) => r is Ok && r->Ok_0.address == slave && r->Ok_0.function_code == fc
                && r->Ok_0.payload@ == data@,
            None => r == Err::<Pdu, RenogyError>(RenogyError::InvalidData),
        },
{
    match FunctionCode::from_u8(function_code) {
        Some(fc) => Ok(Pdu::new(slave, fc, crate::pdu::bytes_to_vec(data, 0, data.len()))),
        None => Err(RenogyError::InvalidData),
    }
}

/// The words of a read response payload: a byte count, then at least that
/// many bytes; the words are the byte pairs after the count, at most
/// `quantity` of them.
pub open spec fn response_words(payload: Seq<u8>, quantity: u16) -> Result<Seq<u16>, RenogyError> {
    if payload.len() == 0 || payload.len() < 1 + payload[0] {
        Err(RenogyError::InvalidData)
    } else {
        let pairs = (payload.len() - 1) / 2;
        let n = if pairs < quantity { pairs } else { quantity as int };
        Ok(Seq::new(n as nat, |i: int| be16(payload, 1 + 2 * i) as u16))
    }
}

/// Parses the payload of a read-holding-registers response.
pub fn parse_read_response(payload: &[u8], quantity: u16) -> (r: Result<Vec<u16>, RenogyError>)
    ensures
        match r {
            Ok(w) => response_words(payload@, quantity) == Ok::<Seq<u16>, RenogyError>(w@),
            Err(e) => response_words(payload@, quantity) == Err::<Seq<u16>, RenogyError>(e),
        },
{
    if payload.len() == 0 {
        return Err(RenogyError::InvalidData);
    }
    let byte_count = payload[0] as usize;
    if payload.len() < 1 + byte_count {
        return Err(RenogyError::InvalidData);
    }
    let pairs = (payload.len() - 1) / 2;
    let n: usize = if pairs < quantity as usize { pairs } else { quantity as usize };
    let mut words: Vec<u16> = Vec::new();
    let mut i: usize = 0;
    while i < n
        invariant
            i <= n,
            n <= pairs,
            pairs == (payload@.len() - 1) / 2,
            payload@.len() >= 1,
            payload@.len() <= usize::MAX,
            words@ =~= Seq::new(i as nat, |k: int| be16(payload@, 1 + 2 * k) as u16),
        decreases n - i,
    {
        assert(2 * i + 2 < payload@.len() + 1);
        let w = payload[1 + 2 * i] as u16 * 256 + payload[2 + 2 * i] as u16;
        words.push(w);
        i = i + 1;
    }
    Ok(words)
}

/// How a Bluetooth exchange ended.
#[derive(Debug, Clone, PartialEq, Eq)]
pub enum ExchangeOutcome {
    /// A notification arrived with these bytes.
    Response(Vec<u8>),
    /// No notification arrived in time.
    TimedOut,
    /// The notification channel closed.
    ChannelClosed,
}

/// One step of a Bluetooth exchange.
#[derive(Debug, Clone, PartialEq, Eq)]
pub enum ExchangeStep {
    /// Discard every notification already queued.
    DrainStale,
    /// Write these bytes to the write characteristic.
    Write(Vec<u8>),
    /// Wait for the next notification, at most this many milliseconds.
    AwaitResponse(u64),
}

/// The steps of one exchange, in order: stale notifications are drained
/// before the request is written, so that the response awaited is not left
/// over from an earlier exchange.
pub fn exchange_plan(request: &Pdu, timeout_ms: u64) -> (r: Vec<ExchangeStep>)
    ensures
        r@.len() == 3,
        r@[0] == ExchangeStep::DrainStale,
        r@[1] matches ExchangeStep::Write(bytes) && bytes@ == frame_bytes(request@),
        r@[2] == ExchangeStep::AwaitResponse(timeout_ms),
{
    let mut r: Vec<ExchangeStep> = Vec::new();
    r.push(ExchangeStep::DrainStale);
    r.push(ExchangeStep::Write(request.serialize()));
    r.push(ExchangeStep::AwaitResponse(timeout_ms));
    r
}

/// The result of an exchange: a timeout is `Bluetooth("timeout")`, a closed
/// channel `Bluetooth("channel closed")`, and a response is decoded as a frame.
pub fn complete_exchange(outcome: ExchangeOutcome) -> (r: Result<Pdu, RenogyError>)
    ensures
        outcome == ExchangeOutcome::TimedOut ==> (r matches Err(RenogyError::Bluetooth(m)) && m@ == "timeout"@),
        outcome == ExchangeOutcome::ChannelClosed ==> (r matches Err(RenogyError::Bluetooth(m)) && m@
            == "channel closed"@),
        outcome matches ExchangeOutcome::Response(bytes) ==> match r {
            Ok(p) => crate::pdu::decode_frame(bytes@) == Ok::<PduView, RenogyError>(p@),
            Err(e) => crate::pdu::decode_frame(bytes@) == Err::<PduView, RenogyError>(e),
        },
{
    match outcome {
        ExchangeOutcome::Response(bytes) => Pdu::deserialize(bytes.as_slice()),
        ExchangeOutcome::TimedOut => Err(RenogyError::Bluetooth(String::from_str("timeout"))),
        ExchangeOutcome::ChannelClosed => Err(RenogyError::Bluetooth(String::from_str("channel closed"))),
    }
}

/// Maps a serial driver error, given whether it is of the invalid-data
/// kind and its message: invalid data is `InvalidData`, anything else an `Io`
/// error carrying the message.
pub fn io_to_renogy_error(invalid_data: bool, message: String) -> (r: RenogyError)
    ensures
        invalid_data ==> r == RenogyError::InvalidData,
        !invalid_data ==> r == RenogyError::Io(message),
{
    if invalid_data {
        RenogyError::InvalidData
    } else {
        RenogyError::Io(message)
    }
}

/// A Modbus link to one or more devices. Implementations own the physical
/// layer and report its failures with the library's errors.
pub trait Transport {
    /// Reads `quantity` holding registers from `addr` of device `slave`.
    fn read_holding_registers(&mut self, slave: u8, addr: u16, quantity: u16) -> Result<Vec<u16>, RenogyError>;

    /// Writes one register.
    fn write_single_register(&mut self, slave: u8, addr: u16, value: u16) -> Result<(), RenogyError>;

    /// Writes consecutive registers from `addr`.
    fn write_multiple_registers(&mut self, slave: u8, addr: u16, values: &[u16]) -> Result<(), RenogyError>;

    /// Sends a request with a custom function code and returns the response
    /// payload, without address, function code or CRC.
    fn send_custom(&mut self, slave: u8, function_code: u8, data: &[u8]) -> Result<Vec<u8>, RenogyError>;

    /// Which link this is, to choose the default scan band.
    fn transport_type(&self) -> TransportType;
}

/// Reads one snapshot of the battery at `addr`, in the order a
/// [`BatteryQuery`] asks for; `now_nanos` stamps the snapshot. `None` when
/// the serial number or the cell count cannot be read.
pub fn query_battery<T: Transport>(transport: &mut T, addr: u8, now_nanos: i64) -> (r: Option<BatteryInfo>)
    ensures
        r is Some ==> snapshot_wf(r->Some_0@) && r->Some_0.timestamp_nanos == now_nanos,
{
    let mut query = BatteryQuery::new(addr);
    while !query.is_done()
        invariant
            query.wf(),
            query.slave == addr,
            query.pending != Some(crate::registers::Register::SnNumber) && !query.abandoned
                ==> query.info.timestamp_nanos == now_nanos,
        decreases crate::query::reads_left(query.pending),
    {
        let (slave, start, quantity) = query.request().unwrap();
        let reply = match transport.read_holding_registers(slave, start, quantity) {
            Ok(words) => Some(words),
            Err(_) => None,
        };
        query.record(reply, now_nanos);
    }
    let r = query.finish();
    r
}

/// Scans `first..=last` with [`query_battery`], stopping at the first address
/// that does not answer; returns the addresses that did.
pub fn discover_batteries<T: Transport>(transport: &mut T, first: u8, last: u8, now_nanos: i64) -> (r: Vec<u8>)
    requires
        first <= last,
    ensures
        exists|n: nat| r@ == run_from(first, n) && first + n <= last + 1,
{
    let mut scan = Discovery::new(first, last);
    while scan.next_address().is_some()
        invariant
            scan.wf(),
            scan.first == first,
            scan.last == last,
        decreases (if scan.stopped { 0int } else { 1int }) + (last + 1 - first - scan.found@.len()),
    {
        let addr = scan.next_address().unwrap();
        let found = query_battery(transport, addr, now_nanos).is_some();
        scan.record(found);
    }
    let r = scan.into_found();
    assert(r@ == run_from(first, r@.len()));
    r
}

/// Scans an address band for devices, probing addresses in order and
/// stopping at the first one that does not answer: devices are chained
/// contiguously from the start of the band.
pub struct Discovery {
    pub first: u8,
    pub last: u8,
    /// The addresses that answered, in order.
    pub found: Vec<u8>,
    /// Whether a probe went unanswered.
    pub stopped: bool,
}

/// `n` consecutive addresses from `first`.
pub open spec fn run_from(first: u8, n: nat) -> Seq<u8> {
    Seq::new(n, |i: int| (first + i) as u8)
}

impl Discovery {
    pub open spec fn wf(&self) -> bool {
        &&& self.found@ == run_from(self.first, self.found@.len())
        &&& self.first + self.found@.len() <= self.last as int + 1
    }

    /// The address to probe next, if the scan is not over.
    pub open spec fn target(&self) -> Option<u8> {
        if self.stopped || self.first + self.found@.len() > self.last {
            None
        } else {
            Some((self.first + self.found@.len()) as u8)
        }
    }

    /// A scan of `first..=last`.
    pub fn new(first: u8, last: u8) -> (r: Discovery)
        requires
            first <= last,
        ensures
            r.wf(),
            r.first == first,
            r.last == last,
            r.found@ == Seq::<u8>::empty(),
            r.target() == Some(first),
    {
        let r = Discovery { first, last, found: Vec::new(), stopped: false };
        assert(r.found@ =~= run_from(first, 0));
        r
    }

    pub fn next_address(&self) -> (r: Option<u8>)
        requires
            self.wf(),
        ensures
            r == self.target(),
    {
        let n = self.found.len();
        if self.stopped || self.first as usize + n > self.last as usize {
            None
        } else {
            Some((self.first as usize + n) as u8)
        }
    }

    /// Records whether the probed address answered; an unanswered probe
    /// ends the scan.
    pub fn record(&mut self, responded: bool)
        requires
            old(self).wf(),
            old(self).target() is Some,
        ensures
            final(self).wf(),
            final(self).first == old(self).first,
            final(self).last == old(self).last,
            responded ==> final(self).found@ == old(self).found@.push(old(self).target()->Some_0)
                && !final(self).stopped,
            !responded ==> final(self).found@ == old(self).found@ && final(self).target() is None,
    {
        if responded {
            let a = (self.first as usize + self.found.len()) as u8;
            self.found.push(a);
            assert(self.found@ =~= run_from(self.first, self.found@.len()));
        } else {
            self.stopped = true;
        }
    }

    /// The addresses that answered, in order.
    pub fn into_found(self) -> (r: Vec<u8>)
        ensures
            r@ == self.found@,
    {
        self.found
    }
}

/// Once a probe goes unanswered the scan is over: whatever is recorded
/// after, no further address is probed and the addresses found stay those
/// before the gap.
pub proof fn lemma_discovery_stops_at_gap(d: Discovery)
    requires
        d.wf(),
        d.stopped,
    ensures
        d.target() is None,
        d.found@ == run_from(d.first, d.found@.len()),
{
}

} // verus!
