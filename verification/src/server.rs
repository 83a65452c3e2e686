//! The decisions of one Modbus TCP transaction: which measurements a request
//! needs, the reply built from them, and the frame that is sent back.
use vstd::prelude::*;
use crate::registers::{
    CallbackError, MAX_NUMBER_OF_COILS, MAX_NUMBER_OF_CONTACTS, MAX_NUMBER_OF_INPUT_REGISTERS,
    coil_index, contact_index, input_register_index, is_current_input, is_voltage_input,
    is_info_register, info_register, info_registers, spec_coil_index, spec_contact_index,
    spec_input_register_index, spec_is_current_input, spec_is_voltage_input, spec_is_info_register,
    input_register_block_len, spec_input_register_block_len,
};
use crate::frame::{
    DecodeOutcome, ModbusRequest, ModbusResponse, ModbusResponseView, RequestKind, ResponseBody,
    ResponseBodyView, decode_frame, decoded_request, encodable, encode_frame, response_frame_bytes,
    zero_padded, decodable,
};

verus! {

/// The hardware that a request reads.
#[derive(Debug, Clone, Copy, PartialEq, Eq, Structural)]
pub enum ReadSource {
    /// Levels of the digital outputs DO0, DO1, ...
    DigitalOutputs,
    /// Levels of the digital inputs DI0, DI1, ...
    DigitalInputs,
    /// Analog current inputs, in microamperes, channel 0, 1, ...
    CurrentInputs,
    /// Analog voltage inputs, in millivolts, channel 0, 1, ...
    VoltageInputs,
}

/// Read items `first .. first + count` of `source`, in order.
#[derive(Debug, Clone, Copy, PartialEq, Eq, Structural)]
pub struct ReadPlan {
    pub source: ReadSource,
    pub first: usize,
    pub count: usize,
}

/// The measurements taken for a request.
#[derive(Debug, PartialEq, Eq)]
pub enum Readings {
    /// The request reads no hardware.
    Nothing,
    /// Digital levels, in the order of the plan.
    Levels(Vec<bool>),
    /// Analog measurements, in the order of the plan.
    Analog(Vec<u32>),
}

/// The mathematical value of [`Readings`].
pub enum ReadingsView {
    Nothing,
    Levels(Seq<bool>),
    Analog(Seq<u32>),
}

impl View for Readings {
    type V = ReadingsView;

    open spec fn view(&self) -> ReadingsView {
        match self {
            Readings::Nothing => ReadingsView::Nothing,
            Readings::Levels(v) => ReadingsView::Levels(v@),
            Readings::Analog(v) => ReadingsView::Analog(v@),
        }
    }
}

/// Drive digital output `pin` to `level`.
#[derive(Debug, Clone, Copy, PartialEq, Eq, Structural)]
pub struct CoilWrite {
    pub pin: usize,
    pub level: bool,
}

/// What a request is answered with: the response, or why there is none, and
/// the output to drive before answering.
#[derive(Debug, PartialEq, Eq)]
pub struct Reply {
    pub response: Result<ModbusResponse, CallbackError>,
    pub coil_write: Option<CoilWrite>,
}

/// The mathematical value of a [`Reply`].
pub struct ReplyView {
    pub response: Result<ModbusResponseView, CallbackError>,
    pub coil_write: Option<CoilWrite>,
}

impl View for Reply {
    type V = ReplyView;

    open spec fn view(&self) -> ReplyView {
        ReplyView {
            response: match &self.response {
                Ok(r) => Ok(r@),
                Err(e) => Err(*e),
            },
            coil_write: self.coil_write,
        }
    }
}

/// Why a transaction ends without a reply.
#[derive(Debug, Clone, Copy, PartialEq, Eq, Structural)]
pub enum CloseReason {
    /// The client closed the connection.
    EndOfStream,
    /// Receiving failed.
    ReceiveFailed,
    /// The receive buffer holds no complete request.
    IncompleteRequest,
    /// The receive buffer holds a frame that is not a valid request.
    MalformedRequest,
}

/// The next thing to do in a transaction.
#[derive(Debug, PartialEq, Eq)]
pub enum Step {
    /// Nothing more: the transaction ends.
    Close(CloseReason),
    /// Take the measurements of the plan, then answer with
    /// [`complete_request`].
    Measure(ModbusRequest, ReadPlan),
    /// Drive the output, if any, then send the response, if any.
    Respond(Reply),
}

/// The block positions `s .. s + quantity` that a read starting at block
/// position `index` covers, given as `s`: the read must name a defined
/// address, ask for at least one item and stay inside the block. A read of
/// no items at a defined address is answered otherwise (see
/// [`reply_spec`]); any other read outside this range names no register
/// and is refused with `NoAddressMatch`.
pub open spec fn spec_read_range(
    index: Result<usize, CallbackError>,
    quantity: u16,
    block_len: usize,
) -> Result<usize, CallbackError> {
    match index {
        Ok(s) => if 1 <= quantity && s + quantity <= block_len {
            Ok(s)
        } else {
            Err(CallbackError::NoAddressMatch)
        },
        Err(e) => Err(e),
    }
}

/// The measurements a request needs: the items of the block that it reads.
pub open spec fn spec_read_plan(kind: RequestKind) -> Option<ReadPlan> {
    match kind {
        RequestKind::ReadCoils(a, q) => match spec_read_range(
            spec_coil_index(a),
            q,
            MAX_NUMBER_OF_COILS,
        ) {
            Ok(s) => Some(ReadPlan { source: ReadSource::DigitalOutputs, first: s, count: q as usize }),
            Err(_) => None,
        },
        RequestKind::ReadDiscreteInputs(a, q) => match spec_read_range(
            spec_contact_index(a),
            q,
            MAX_NUMBER_OF_CONTACTS,
        ) {
            Ok(s) => Some(ReadPlan { source: ReadSource::DigitalInputs, first: s, count: q as usize }),
            Err(_) => None,
        },
        RequestKind::ReadInputRegisters(a, q) => match spec_read_range(
            spec_input_register_index(a),
            q,
            spec_input_register_block_len(a),
        ) {
            Ok(s) => if spec_is_current_input(a) {
                Some(ReadPlan { source: ReadSource::CurrentInputs, first: s, count: q as usize })
            } else if spec_is_voltage_input(a) {
                Some(ReadPlan { source: ReadSource::VoltageInputs, first: s, count: q as usize })
            } else {
                None
            },
            Err(_) => None,
        },
        _ => None,
    }
}

/// The readings fit the request's plan: one per planned item, of the planned
/// kind, and none where nothing is planned.
pub open spec fn readings_fit(kind: RequestKind, readings: ReadingsView) -> bool {
    match spec_read_plan(kind) {
        None => readings is Nothing,
        Some(plan) => match readings {
            ReadingsView::Levels(v) => (plan.source == ReadSource::DigitalOutputs
                || plan.source == ReadSource::DigitalInputs) && v.len() == plan.count,
            ReadingsView::Analog(v) => (plan.source == ReadSource::CurrentInputs
                || plan.source == ReadSource::VoltageInputs) && v.len() == plan.count,
            ReadingsView::Nothing => false,
        },
    }
}

pub open spec fn levels_of(readings: ReadingsView) -> Seq<bool> {
    match readings {
        ReadingsView::Levels(v) => v,
        _ => Seq::empty(),
    }
}

pub open spec fn analog_of(readings: ReadingsView) -> Seq<u32> {
    match readings {
        ReadingsView::Analog(v) => v,
        _ => Seq::empty(),
    }
}

/// Analog measurements as register values: each truncated to 16 bits.
pub open spec fn analog_registers(analog: Seq<u32>) -> Seq<u16> {
    Seq::new(analog.len(), |j: int| analog[j] as u16)
}

/// A response that carries the request's header.
pub open spec fn answer(req: ModbusRequest, body: ResponseBodyView) -> ModbusResponseView {
    ModbusResponseView { transaction_id: req.transaction_id, unit_id: req.unit_id, body }
}

/// A reply with a response that drives nothing.
pub open spec fn answered(req: ModbusRequest, body: ResponseBodyView) -> ReplyView {
    ReplyView { response: Ok(answer(req, body)), coil_write: None }
}

/// The block position that a defined address names.
pub open spec fn position(index: Result<usize, CallbackError>) -> int {
    match index {
        Ok(s) => s as int,
        Err(_) => 0,
    }
}

/// `n` unset levels.
pub open spec fn unset_levels(n: int) -> Seq<bool> {
    Seq::new(n as nat, |i: int| false)
}

/// `n` zero registers.
pub open spec fn zero_registers(n: int) -> Seq<u16> {
    Seq::new(n as nat, |i: int| 0u16)
}

/// A reply without a response that drives nothing.
pub open spec fn refusal(e: CallbackError) -> ReplyView {
    ReplyView { response: Err(e), coil_write: None }
}

/// The reply to a request, given its measurements: the requested items of a
/// block, in order; for a read of no items at a defined address, the block
/// from that address to its end (all five input registers counted as one
/// block), every item unset or zero; an echo of a coil write together with the output it
/// drives; `NoAddressMatch` for an address range that the register map does
/// not define; `NoSupportedRequestMatch` for other function codes.
pub open spec fn reply_spec(req: ModbusRequest, readings: ReadingsView) -> ReplyView {
    match req.kind {
        RequestKind::ReadCoils(a, q) => if q == 0 && spec_coil_index(a) is Ok {
            answered(req, ResponseBodyView::ReadCoils(
                unset_levels(MAX_NUMBER_OF_COILS - position(spec_coil_index(a))),
            ))
        } else { match spec_read_range(
            spec_coil_index(a),
            q,
            MAX_NUMBER_OF_COILS,
        ) {
            Ok(_) => ReplyView {
                response: Ok(answer(req, ResponseBodyView::ReadCoils(levels_of(readings)))),
                coil_write: None,
            },
            Err(e) => refusal(e),
        } },
        RequestKind::ReadDiscreteInputs(a, q) => if q == 0 && spec_contact_index(a) is Ok {
            answered(req, ResponseBodyView::ReadDiscreteInputs(
                unset_levels(MAX_NUMBER_OF_CONTACTS - position(spec_contact_index(a))),
            ))
        } else { match spec_read_range(
            spec_contact_index(a),
            q,
            MAX_NUMBER_OF_CONTACTS,
        ) {
            Ok(_) => ReplyView {
                response: Ok(answer(req, ResponseBodyView::ReadDiscreteInputs(levels_of(readings)))),
                coil_write: None,
            },
            Err(e) => refusal(e),
        } },
        RequestKind::ReadInputRegisters(a, q) => if q == 0 && spec_input_register_index(a) is Ok {
            answered(req, ResponseBodyView::ReadInputRegisters(
                zero_registers(MAX_NUMBER_OF_INPUT_REGISTERS - position(spec_input_register_index(a))),
            ))
        } else { match spec_read_range(
            spec_input_register_index(a),
            q,
            spec_input_register_block_len(a),
        ) {
            Ok(s) => ReplyView {
                response: Ok(answer(
                    req,
                    ResponseBodyView::ReadInputRegisters(
                        if spec_is_info_register(a) {
                            info_registers().subrange(s as int, s + q)
                        } else {
                            analog_registers(analog_of(readings))
                        },
                    ),
                )),
                coil_write: None,
            },
            Err(e) => refusal(e),
        } },
        RequestKind::WriteSingleCoil(a, v) => match spec_coil_index(a) {
            Ok(pin) => ReplyView {
                response: Ok(answer(req, ResponseBodyView::WriteSingleCoil(a))),
                coil_write: Some(CoilWrite { pin, level: v }),
            },
            Err(e) => refusal(e),
        },
        RequestKind::Unsupported => refusal(CallbackError::NoSupportedRequestMatch),
    }
}

/// The block positions that a read covers (see [`spec_read_range`]).
pub fn read_range(index: Result<usize, CallbackError>, quantity: u16, block_len: usize) -> (r:
    Result<usize, CallbackError>)
    requires
        index matches Ok(s) ==> s < block_len,
        block_len <= MAX_NUMBER_OF_CONTACTS,
    ensures
        r == spec_read_range(index, quantity, block_len),
{
    match index {
        Ok(s) => if 1 <= quantity && (quantity as usize) <= block_len - s {
            Ok(s)
        } else {
            Err(CallbackError::NoAddressMatch)
        },
        Err(e) => Err(e),
    }
}

/// The measurements that a request needs before it can be answered, if any.
pub fn read_plan(kind: RequestKind) -> (r: Option<ReadPlan>)
    ensures
        r == spec_read_plan(kind),
{
    match kind {
        RequestKind::ReadCoils(a, q) => match read_range(coil_index(a), q, MAX_NUMBER_OF_COILS) {
            Ok(s) => Some(ReadPlan { source: ReadSource::DigitalOutputs, first: s, count: q as usize }),
            Err(_) => None,
        },
        RequestKind::ReadDiscreteInputs(a, q) => match read_range(
            contact_index(a),
            q,
            MAX_NUMBER_OF_CONTACTS,
        ) {
            Ok(s) => Some(ReadPlan { source: ReadSource::DigitalInputs, first: s, count: q as usize }),
            Err(_) => None,
        },
        RequestKind::ReadInputRegisters(a, q) => match read_range(
            input_register_index(a),
            q,
            input_register_block_len(a),
        ) {
            Ok(s) => if is_current_input(a) {
                Some(ReadPlan { source: ReadSource::CurrentInputs, first: s, count: q as usize })
            } else if is_voltage_input(a) {
                Some(ReadPlan { source: ReadSource::VoltageInputs, first: s, count: q as usize })
            } else {
                None
            },
            Err(_) => None,
        },
        _ => None,
    }
}

/// `n` unset levels.
fn unset_levels_vec(n: usize) -> (r: Vec<bool>)
    ensures
        r@ == unset_levels(n as int),
{
    let mut r: Vec<bool> = Vec::new();
    let mut i: usize = 0;
    while i < n
        invariant
            i <= n,
            r@ == unset_levels(i as int),
        decreases n - i,
    {
        r.push(false);
        i = i + 1;
    }
    r
}

/// `n` zero registers.
fn zero_registers_vec(n: usize) -> (r: Vec<u16>)
    ensures
        r@ == zero_registers(n as int),
{
    let mut r: Vec<u16> = Vec::new();
    let mut i: usize = 0;
    while i < n
        invariant
            i <= n,
            r@ == zero_registers(i as int),
        decreases n - i,
    {
        r.push(0);
        i = i + 1;
    }
    r
}

/// Information registers `first .. first + count`.
fn info_registers_from(first: usize, count: usize) -> (r: Vec<u16>)
    requires
        first + count <= MAX_NUMBER_OF_INPUT_REGISTERS,
    ensures
        r@ == info_registers().subrange(first as int, first + count),
{
    let mut r: Vec<u16> = Vec::new();
    let mut i: usize = first;
    while i < first + count
        invariant
            first <= i <= first + count,
            first + count <= MAX_NUMBER_OF_INPUT_REGISTERS,
            r@ == info_registers().subrange(first as int, i as int),
        decreases first + count - i,
    {
        r.push(info_register(i));
        i = i + 1;
    }
    r
}

/// Analog measurements as register values, each truncated to 16 bits.
fn registers_of_measurements(analog: &Vec<u32>) -> (r: Vec<u16>)
    ensures
        r@ == analog_registers(analog@),
{
    let mut r: Vec<u16> = Vec::new();
    let mut i: usize = 0;
    while i < analog.len()
        invariant
            i <= analog@.len(),
            r@ == analog_registers(analog@).subrange(0, i as int),
        decreases analog.len() - i,
    {
        r.push(analog[i] as u16);
        i = i + 1;
    }
    r
}

/// The reply to a request, from the measurements its plan asked for.
pub fn complete_request(req: &ModbusRequest, readings: Readings) -> (r: Reply)
    requires
        readings_fit(req.kind, readings@),
    ensures
        r@ == reply_spec(*req, readings@),
{
    let tid: u16 = req.transaction_id;
    let uid: u8 = req.unit_id;
    match req.kind {
        RequestKind::ReadCoils(a, q) => match coil_index(a) {
            Ok(s) if q == 0 => Reply {
                response: Ok(ModbusResponse {
                    transaction_id: tid,
                    unit_id: uid,
                    body: ResponseBody::ReadCoils(unset_levels_vec(MAX_NUMBER_OF_COILS - s)),
                }),
                coil_write: None,
            },
            index => match read_range(index, q, MAX_NUMBER_OF_COILS) {
            Ok(_) => {
                let coils: Vec<bool> = match readings {
                    Readings::Levels(v) => v,
                    _ => Vec::new(),
                };
                Reply {
                    response: Ok(ModbusResponse {
                        transaction_id: tid,
                        unit_id: uid,
                        body: ResponseBody::ReadCoils(coils),
                    }),
                    coil_write: None,
                }
            },
            Err(e) => Reply { response: Err(e), coil_write: None },
        } },
        RequestKind::ReadDiscreteInputs(a, q) => match contact_index(a) {
            Ok(s) if q == 0 => Reply {
                response: Ok(ModbusResponse {
                    transaction_id: tid,
                    unit_id: uid,
                    body: ResponseBody::ReadDiscreteInputs(
                        unset_levels_vec(MAX_NUMBER_OF_CONTACTS - s),
                    ),
                }),
                coil_write: None,
            },
            index => match read_range(index, q, MAX_NUMBER_OF_CONTACTS) {
            Ok(_) => {
                let contacts: Vec<bool> = match readings {
                    Readings::Levels(v) => v,
                    _ => Vec::new(),
                };
                Reply {
                    response: Ok(ModbusResponse {
                        transaction_id: tid,
                        unit_id: uid,
                        body: ResponseBody::ReadDiscreteInputs(contacts),
                    }),
                    coil_write: None,
                }
            },
            Err(e) => Reply { response: Err(e), coil_write: None },
        } },
        RequestKind::ReadInputRegisters(a, q) => match input_register_index(a) {
            Ok(s) if q == 0 => Reply {
                response: Ok(ModbusResponse {
                    transaction_id: tid,
                    unit_id: uid,
                    body: ResponseBody::ReadInputRegisters(
                        zero_registers_vec(MAX_NUMBER_OF_INPUT_REGISTERS - s),
                    ),
                }),
                coil_write: None,
            },
            index => match read_range(index, q, input_register_block_len(a)) {
            Ok(s) => {
                let words: Vec<u16> = if is_info_register(a) {
                    info_registers_from(s, q as usize)
                } else {
                    match &readings {
                        Readings::Analog(v) => registers_of_measurements(v),
                        _ => Vec::new(),
                    }
                };
                Reply {
                    response: Ok(ModbusResponse {
                        transaction_id: tid,
                        unit_id: uid,
                        body: ResponseBody::ReadInputRegisters(words),
                    }),
                    coil_write: None,
                }
            },
            Err(e) => Reply { response: Err(e), coil_write: None },
        } },
        RequestKind::WriteSingleCoil(a, v) => match coil_index(a) {
            Ok(pin) => Reply {
                response: Ok(ModbusResponse {
                    transaction_id: tid,
                    unit_id: uid,
                    body: ResponseBody::WriteSingleCoil(a),
                }),
                coil_write: Some(CoilWrite { pin, level: v }),
            },
            Err(e) => Reply { response: Err(e), coil_write: None },
        },
        RequestKind::Unsupported => Reply {
            response: Err(CallbackError::NoSupportedRequestMatch),
            coil_write: None,
        },
    }
}

/// The mathematical value of a [`Step`].
pub enum StepView {
    Close(CloseReason),
    Measure(ModbusRequest, ReadPlan),
    Respond(ReplyView),
}

impl View for Step {
    type V = StepView;

    open spec fn view(&self) -> StepView {
        match self {
            Step::Close(c) => StepView::Close(*c),
            Step::Measure(req, plan) => StepView::Measure(*req, *plan),
            Step::Respond(reply) => StepView::Respond(reply@),
        }
    }
}

/// The step that follows decoding: the plan's measurements if the request
/// needs any, else its reply.
pub open spec fn step_for(outcome: DecodeOutcome) -> StepView {
    match outcome {
        DecodeOutcome::Incomplete => StepView::Close(CloseReason::IncompleteRequest),
        DecodeOutcome::Malformed => StepView::Close(CloseReason::MalformedRequest),
        DecodeOutcome::Request(req) => match spec_read_plan(req.kind) {
            Some(plan) => StepView::Measure(req, plan),
            None => StepView::Respond(reply_spec(req, ReadingsView::Nothing)),
        },
    }
}

/// The first step of a transaction, from what receiving gave (`None` for a
/// failed receive, else the number of bytes received) and the receive buffer.
pub open spec fn first_step(received: Option<usize>, buffer: Seq<u8>) -> StepView {
    match received {
        None => StepView::Close(CloseReason::ReceiveFailed),
        Some(n) => if n == 0 {
            StepView::Close(CloseReason::EndOfStream)
        } else {
            step_for(decoded_request(buffer))
        },
    }
}

/// The step that follows decoding the receive buffer.
pub fn next_step(outcome: DecodeOutcome) -> (s: Step)
    ensures
        s@ == step_for(outcome),
{
    match outcome {
        DecodeOutcome::Incomplete => Step::Close(CloseReason::IncompleteRequest),
        DecodeOutcome::Malformed => Step::Close(CloseReason::MalformedRequest),
        DecodeOutcome::Request(req) => match read_plan(req.kind) {
            Some(plan) => Step::Measure(req, plan),
            None => Step::Respond(complete_request(&req, Readings::Nothing)),
        },
    }
}

/// Starts a transaction once receiving has ended: closes it on a failed
/// receive or at the end of the stream, else decodes the whole receive buffer
/// (bytes left from earlier requests included) and decides the next step.
pub fn start_transaction(received: Option<usize>, buf: &[u8]) -> (s: Step)
    requires
        received matches Some(n) && n > 0 ==> decodable(buf@),
    ensures
        s@ == first_step(received, buf@),
{
    match received {
        None => Step::Close(CloseReason::ReceiveFailed),
        Some(n) => if n == 0 {
            Step::Close(CloseReason::EndOfStream)
        } else {
            next_step(decode_frame(buf))
        },
    }
}

/// The replies that can be framed: every response's data fits the packing
/// buffers.
pub open spec fn reply_encodable(reply: ReplyView) -> bool {
    reply.response matches Ok(resp) ==> encodable(resp)
}

/// The 64-byte buffer sent back for a reply: the response's frame followed by
/// zeros, or nothing where the reply has no response.
pub fn response_frame(reply: &Reply) -> (r: Option<[u8; 64]>)
    requires
        reply_encodable(reply@),
    ensures
        match reply@.response {
            Ok(resp) => r matches Some(f) && f@ == zero_padded(response_frame_bytes(resp), 64),
            Err(_) => r is None,
        },
{
    match &reply.response {
        Ok(resp) => Some(encode_frame(resp)),
        Err(_) => None,
    }
}

} // verus!
