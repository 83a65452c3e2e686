//! Modbus TCP request and response frames as plain values, and the calls into
//! `modbus-core` that decode requests from and encode responses to bytes.
use vstd::prelude::*;
use modbus_core::tcp::server::{decode_request, encode_response};
use modbus_core::tcp::{Header, RequestAdu, ResponseAdu};
use modbus_core::{Coils, Data, RequestPdu, ResponsePdu};
use modbus_core::Request as Mb;
use modbus_core::Response as MbResponse;

verus! {

/// The requests that the controller tells apart; every other function code
/// is `Unsupported`.
#[derive(Debug, Clone, Copy, PartialEq, Eq, Structural)]
pub enum RequestKind {
    /// Read coils: start address, quantity.
    ReadCoils(u16, u16),
    /// Read discrete inputs: start address, quantity.
    ReadDiscreteInputs(u16, u16),
    /// Read input registers: start address, quantity.
    ReadInputRegisters(u16, u16),
    /// Write a single coil: address, new state.
    WriteSingleCoil(u16, bool),
    /// Any other well-formed request.
    Unsupported,
}

/// A decoded Modbus TCP request: the MBAP header fields and the PDU.
#[derive(Debug, Clone, Copy, PartialEq, Eq, Structural)]
pub struct ModbusRequest {
    pub transaction_id: u16,
    pub unit_id: u8,
    pub kind: RequestKind,
}

/// What decoding a receive buffer gives.
#[derive(Debug, Clone, Copy, PartialEq, Eq, Structural)]
pub enum DecodeOutcome {
    /// A complete, well-formed request.
    Request(ModbusRequest),
    /// The buffer holds no complete request frame.
    Incomplete,
    /// The buffer holds a frame that is not a valid request.
    Malformed,
}

/// The PDU of a response.
#[derive(Debug, PartialEq, Eq)]
pub enum ResponseBody {
    ReadCoils(Vec<bool>),
    ReadDiscreteInputs(Vec<bool>),
    ReadInputRegisters(Vec<u16>),
    /// Echo of the written coil's address.
    WriteSingleCoil(u16),
}

/// A response: the request's MBAP header fields and a PDU.
#[derive(Debug, PartialEq, Eq)]
pub struct ModbusResponse {
    pub transaction_id: u16,
    pub unit_id: u8,
    pub body: ResponseBody,
}

/// The mathematical value of a [`ResponseBody`].
pub enum ResponseBodyView {
    ReadCoils(Seq<bool>),
    ReadDiscreteInputs(Seq<bool>),
    ReadInputRegisters(Seq<u16>),
    WriteSingleCoil(u16),
}

/// The mathematical value of a [`ModbusResponse`].
pub struct ModbusResponseView {
    pub transaction_id: u16,
    pub unit_id: u8,
    pub body: ResponseBodyView,
}

impl View for ResponseBody {
    type V = ResponseBodyView;

    open spec fn view(&self) -> ResponseBodyView {
        match self {
            ResponseBody::ReadCoils(b) => ResponseBodyView::ReadCoils(b@),
            ResponseBody::ReadDiscreteInputs(b) => ResponseBodyView::ReadDiscreteInputs(b@),
            ResponseBody::ReadInputRegisters(w) => ResponseBodyView::ReadInputRegisters(w@),
            ResponseBody::WriteSingleCoil(a) => ResponseBodyView::WriteSingleCoil(*a),
        }
    }
}

impl View for ModbusResponse {
    type V = ModbusResponseView;

    open spec fn view(&self) -> ModbusResponseView {
        ModbusResponseView {
            transaction_id: self.transaction_id,
            unit_id: self.unit_id,
            body: self.body@,
        }
    }
}

/// Size of the buffer that a response frame is encoded into.
pub const RESPONSE_BUFFER_LEN: usize = 64;

/// Receive buffers at least this long are always decodable: `modbus-core`
/// skips at most 255 leading bytes while it looks for a frame, so every
/// candidate frame it inspects is then at least 13 bytes long.
pub const MIN_RECEIVE_BUFFER_LEN: usize = 268;

/// Function codes (write multiple coils, write multiple registers) for which
/// `modbus-core` reads the request length from byte 12 of a candidate frame
/// that is longer than 10 bytes.
pub open spec fn is_multiple_write_code(b: u8) -> bool {
    b == 0x0F || b == 0x10
}

/// Receive buffers that `modbus-core` decodes without indexing past their
/// end: long enough that every candidate frame has 13 bytes, or with no
/// candidate frame of 11 or 12 bytes (those starting 11 or 12 bytes before
/// the end) whose function code, at its byte 7, is a multiple-write code.
pub open spec fn decodable(buffer: Seq<u8>) -> bool {
    ||| buffer.len() >= MIN_RECEIVE_BUFFER_LEN
    ||| {
        &&& buffer.len() >= 4 ==> !is_multiple_write_code(buffer[buffer.len() - 4])
        &&& buffer.len() >= 5 ==> !is_multiple_write_code(buffer[buffer.len() - 5])
    }
}

/// Whether the receive buffer can be decoded (see [`decodable`]).
pub fn is_decodable(buf: &[u8]) -> (r: bool)
    ensures
        r == decodable(buf@),
{
    let len: usize = buf.len();
    if len >= MIN_RECEIVE_BUFFER_LEN {
        return true;
    }
    let last4: bool = len >= 4 && (buf[len - 4] == 0x0F || buf[len - 4] == 0x10);
    let last5: bool = len >= 5 && (buf[len - 5] == 0x0F || buf[len - 5] == 0x10);
    !last4 && !last5
}

/// What `modbus_core::tcp::server::decode_request` gives for a receive buffer.
pub uninterp spec fn decoded_request(buffer: Seq<u8>) -> DecodeOutcome;

/// A 16-bit value as two big-endian bytes.
pub open spec fn be16(v: int) -> Seq<u8> {
    seq![(v / 256) as u8, (v % 256) as u8]
}

/// Bits `from .. from + width` of `bits` as a number, the first bit least
/// significant; bits past the end count as 0.
pub open spec fn packed_bits(bits: Seq<bool>, from: int, width: nat) -> nat
    decreases width,
{
    if width == 0 {
        0
    } else {
        (if 0 <= from < bits.len() && bits[from] { 1nat } else { 0nat })
            + 2 * packed_bits(bits, from + 1, (width - 1) as nat)
    }
}

/// Number of bytes that `n` coils take once packed eight to a byte.
pub open spec fn packed_len(n: nat) -> nat {
    (n + 7) / 8
}

/// Coils packed eight to a byte, the first coil in the lowest bit.
pub open spec fn packed_coils(bits: Seq<bool>) -> Seq<u8> {
    Seq::new(packed_len(bits.len()), |k: int| packed_bits(bits, 8 * k, 8) as u8)
}

/// Registers as big-endian byte pairs.
pub open spec fn be_words(words: Seq<u16>) -> Seq<u8> {
    Seq::new(
        2 * words.len(),
        |i: int| if i % 2 == 0 { (words[i / 2] / 256) as u8 } else { (words[i / 2] % 256) as u8 },
    )
}

/// The PDU bytes of a response: function code, then its data.
pub open spec fn response_pdu_bytes(body: ResponseBodyView) -> Seq<u8> {
    match body {
        ResponseBodyView::ReadCoils(bits) => seq![0x01u8, packed_len(bits.len()) as u8]
            + packed_coils(bits),
        ResponseBodyView::ReadDiscreteInputs(bits) => seq![0x02u8, packed_len(bits.len()) as u8]
            + packed_coils(bits),
        ResponseBodyView::ReadInputRegisters(words) => seq![0x04u8, (2 * words.len()) as u8]
            + be_words(words),
        ResponseBodyView::WriteSingleCoil(addr) => seq![0x05u8] + be16(addr as int),
    }
}

/// A Modbus TCP response frame: MBAP header (transaction id, protocol id 0,
/// length of the rest, unit id) followed by the PDU.
pub open spec fn response_frame_bytes(resp: ModbusResponseView) -> Seq<u8> {
    let pdu = response_pdu_bytes(resp.body);
    be16(resp.transaction_id as int) + seq![0u8, 0u8] + be16(pdu.len() + 1int) + seq![resp.unit_id]
        + pdu
}

/// `bytes` followed by zeros up to `len` bytes.
pub open spec fn zero_padded(bytes: Seq<u8>, len: nat) -> Seq<u8> {
    Seq::new(len, |i: int| if i < bytes.len() { bytes[i] } else { 0u8 })
}

/// Responses whose data fits the 10-byte packing buffer: 1 to 80 coils, or 1
/// to 5 registers.
pub open spec fn encodable(resp: ModbusResponseView) -> bool {
    match resp.body {
        ResponseBodyView::ReadCoils(bits) => 1 <= bits.len() <= 80,
        ResponseBodyView::ReadDiscreteInputs(bits) => 1 <= bits.len() <= 80,
        ResponseBodyView::ReadInputRegisters(words) => 1 <= words.len() <= 5,
        ResponseBodyView::WriteSingleCoil(_) => true,
    }
}

/// Calls `modbus_core::tcp::server::decode_request` on the whole buffer and
/// keeps the header fields and the request kinds that the controller serves.
/// Claimed: the result depends on the buffer's bytes alone. The buffer is
/// `decodable`, since on the other buffers the crate may index past their
/// end.
#[verifier::external_body]
pub(crate) fn decode_frame(buf: &[u8]) -> (r: DecodeOutcome)
    requires
        decodable(buf@),
    ensures
        r == decoded_request(buf@),
{
    match decode_request(buf) {
        Ok(Some(RequestAdu { hdr, pdu: RequestPdu(req) })) => DecodeOutcome::Request(ModbusRequest {
            transaction_id: hdr.transaction_id, unit_id: hdr.unit_id, kind: match req {
                Mb::ReadCoils(a, q) => RequestKind::ReadCoils(a, q),
                Mb::ReadDiscreteInputs(a, q) => RequestKind::ReadDiscreteInputs(a, q),
                Mb::ReadInputRegisters(a, q) => RequestKind::ReadInputRegisters(a, q),
                Mb::WriteSingleCoil(a, v) => RequestKind::WriteSingleCoil(a, v),
                _ => RequestKind::Unsupported,
            },
        }),
        Ok(None) => DecodeOutcome::Incomplete,
        Err(_) => DecodeOutcome::Malformed,
    }
}

/// Packs the response's data with `Coils::from_bools` or `Data::from_words`
/// into a 10-byte buffer, and encodes the response with
/// `modbus_core::tcp::server::encode_response` into a zeroed 64-byte buffer.
/// Claimed: the buffer then holds the Modbus TCP frame of the response
/// followed by zeros.
#[verifier::external_body]
pub(crate) fn encode_frame(resp: &ModbusResponse) -> (frame: [u8; 64])
    requires
        encodable(resp@),
    ensures
        frame@ == zero_padded(response_frame_bytes(resp@), 64),
{
    let (mut t, mut out) = ([0u8; 10], [0u8; 64]);
    let pdu = match &resp.body {
        ResponseBody::ReadCoils(b) => MbResponse::ReadCoils(Coils::from_bools(b, &mut t).unwrap()),
        ResponseBody::ReadDiscreteInputs(b) => MbResponse::ReadDiscreteInputs(Coils::from_bools(b, &mut t).unwrap()),
        ResponseBody::ReadInputRegisters(w) => MbResponse::ReadInputRegisters(Data::from_words(w, &mut t).unwrap()),
        ResponseBody::WriteSingleCoil(a) => MbResponse::WriteSingleCoil(*a),
    };
    let hdr = Header { transaction_id: resp.transaction_id, unit_id: resp.unit_id };
    let _ = encode_response(ResponseAdu { hdr, pdu: ResponsePdu(Ok(pdu)) }, &mut out);
    out
}

} // verus!
