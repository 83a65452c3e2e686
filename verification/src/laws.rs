//! Properties that hold across requests and replies; the later ones are
//! stated in terms of the register map's addresses and values.
use vstd::prelude::*;
use crate::registers::{
    CallbackError, DO0_ADDR, DO3_ADDR, MAX_NUMBER_OF_COILS, spec_coil_index, spec_contact_index,
    spec_input_register_index, spec_input_register_block_len, info_registers,
};
use crate::frame::{
    DecodeOutcome, decoded_request, ModbusRequest, ModbusResponseView, RequestKind,
    ResponseBodyView, be16, response_frame_bytes, response_pdu_bytes, packed_bits,
};
use crate::server::{
    CoilWrite, ReadingsView, ReplyView, answered, position, readings_fit, refusal, unset_levels,
    zero_registers, reply_encodable, reply_spec,
    spec_read_plan, spec_read_range, CloseReason, ReadPlan, ReadSource, StepView, first_step,
    step_for,
};

verus! {

/// Every response carries the transaction id and unit id of the request it
/// answers.
pub proof fn lemma_response_echoes_header(req: ModbusRequest, readings: ReadingsView)
    ensures
        reply_spec(req, readings).response matches Ok(resp) ==> resp.transaction_id
            == req.transaction_id && resp.unit_id == req.unit_id,
{
}

/// Read requests drive no output.
pub proof fn lemma_reads_drive_no_output(req: ModbusRequest, readings: ReadingsView)
    requires
        req.kind is ReadCoils || req.kind is ReadDiscreteInputs || req.kind is ReadInputRegisters,
    ensures
        reply_spec(req, readings).coil_write is None,
{
}

/// A read is answered with exactly as many items as it asks for, read from
/// the block positions it names: the plan reads items `s .. s + quantity`,
/// where `s` is the position of the start address.
pub proof fn lemma_read_answers_requested_items(req: ModbusRequest, readings: ReadingsView)
    requires
        readings_fit(req.kind, readings),
    ensures
        match req.kind {
            RequestKind::ReadCoils(a, q) => match spec_read_range(spec_coil_index(a), q, 4) {
                Ok(s) => spec_read_plan(req.kind) matches Some(plan) && plan.first == s
                    && plan.count == q && (reply_spec(req, readings).response matches Ok(resp)
                    && resp.body matches ResponseBodyView::ReadCoils(bits) && bits.len() == q),
                Err(_) => true,
            },
            RequestKind::ReadDiscreteInputs(a, q) => match spec_read_range(
                spec_contact_index(a),
                q,
                11,
            ) {
                Ok(s) => spec_read_plan(req.kind) matches Some(plan) && plan.first == s
                    && plan.count == q && (reply_spec(req, readings).response matches Ok(resp)
                    && resp.body matches ResponseBodyView::ReadDiscreteInputs(bits) && bits.len()
                    == q),
                Err(_) => true,
            },
            RequestKind::ReadInputRegisters(a, q) => match spec_read_range(
                spec_input_register_index(a),
                q,
                spec_input_register_block_len(a),
            ) {
                Ok(_) => reply_spec(req, readings).response matches Ok(resp) && resp.body matches
                    ResponseBodyView::ReadInputRegisters(words) && words.len() == q,
                Err(_) => true,
            },
            _ => true,
        },
{
}

/// A read whose address the register map does not define, or that asks for
/// items past the end of its block, is refused with `NoAddressMatch`: no
/// response, no measurement, no output driven.
pub proof fn lemma_undefined_reads_refused(req: ModbusRequest, readings: ReadingsView)
    ensures
        match req.kind {
            RequestKind::ReadCoils(a, q) => (q >= 1 || spec_coil_index(a) is Err) && spec_read_range(
                spec_coil_index(a),
                q,
                4,
            ) is Err ==> (reply_spec(req, readings) == refusal(CallbackError::NoAddressMatch)
                && spec_read_plan(req.kind) is None),
            RequestKind::ReadDiscreteInputs(a, q) => (q >= 1 || spec_contact_index(a) is Err)
                && spec_read_range(spec_contact_index(a), q, 11) is Err ==> (reply_spec(
                req,
                readings,
            ) == refusal(CallbackError::NoAddressMatch) && spec_read_plan(req.kind) is None),
            RequestKind::ReadInputRegisters(a, q) => (q >= 1 || spec_input_register_index(a) is Err)
                && spec_read_range(
                spec_input_register_index(a),
                q,
                spec_input_register_block_len(a),
            ) is Err ==> (reply_spec(req, readings) == refusal(CallbackError::NoAddressMatch)
                && spec_read_plan(req.kind) is None),
            _ => true,
        },
{
}

/// A read of no items at a defined address measures nothing and is answered
/// with the block from that address to its end, every item unset or zero
/// (the five input registers counting as one block).
pub proof fn lemma_empty_reads_answer_rest_of_block(req: ModbusRequest, readings: ReadingsView)
    ensures
        match req.kind {
            RequestKind::ReadCoils(a, q) => (q == 0 && spec_coil_index(a) is Ok) ==> (
            spec_read_plan(req.kind) is None && reply_spec(req, readings) == answered(
                req,
                ResponseBodyView::ReadCoils(unset_levels(4 - position(spec_coil_index(a)))),
            )),
            RequestKind::ReadDiscreteInputs(a, q) => (q == 0 && spec_contact_index(a) is Ok)
                ==> (spec_read_plan(req.kind) is None && reply_spec(req, readings) == answered(
                req,
                ResponseBodyView::ReadDiscreteInputs(unset_levels(11 - position(spec_contact_index(a)))),
            )),
            RequestKind::ReadInputRegisters(a, q) => (q == 0 && spec_input_register_index(a) is Ok) ==> (spec_read_plan(req.kind) is None && reply_spec(req, readings) == answered(
                req,
                ResponseBodyView::ReadInputRegisters(zero_registers(5 - position(spec_input_register_index(a)))),
            )),
            _ => true,
        },
{
}

/// A write drives exactly the output that its address names, to the written
/// level, and answers with the address; a write to an address that names no
/// output drives nothing and is refused with `NoAddressMatch`.
pub proof fn lemma_write_drives_named_output(req: ModbusRequest, addr: u16, level: bool)
    requires
        req.kind == RequestKind::WriteSingleCoil(addr, level),
    ensures
        DO0_ADDR <= addr <= DO3_ADDR ==> {
            &&& reply_spec(req, ReadingsView::Nothing).coil_write == Some(
                CoilWrite { pin: (addr - DO0_ADDR) as usize, level },
            )
            &&& (addr - DO0_ADDR) < MAX_NUMBER_OF_COILS
            &&& reply_spec(req, ReadingsView::Nothing).response matches Ok(resp) && resp.body
                == ResponseBodyView::WriteSingleCoil(addr)
        },
        !(DO0_ADDR <= addr <= DO3_ADDR) ==> reply_spec(req, ReadingsView::Nothing) == refusal(
            CallbackError::NoAddressMatch,
        ),
{
}

/// Requests of other function codes get no response and drive nothing.
pub proof fn lemma_unsupported_requests_refused(req: ModbusRequest, readings: ReadingsView)
    requires
        req.kind is Unsupported,
    ensures
        reply_spec(req, readings) == refusal(CallbackError::NoSupportedRequestMatch),
{
}

/// Each coil address names its own output: DO0..DO3 in address order.
pub proof fn lemma_coil_addresses_distinct(a: u16, b: u16)
    requires
        spec_coil_index(a) is Ok,
        spec_coil_index(b) is Ok,
    ensures
        spec_coil_index(a) == spec_coil_index(b) <==> a == b,
        spec_coil_index(a) == Ok::<usize, CallbackError>((a - DO0_ADDR) as usize),
{
}

/// A level written to an output is what a later read of the coils returns
/// for it: after the write to `write_addr` is applied to the outputs, a read
/// of `quantity` coils from `read_addr` that covers the written output, with
/// the levels its plan reads, returns the written level at that output's
/// place.
pub proof fn lemma_written_coil_reads_back(
    write: ModbusRequest,
    write_addr: u16,
    level: bool,
    outputs: Seq<bool>,
    read: ModbusRequest,
    read_addr: u16,
    quantity: u16,
)
    requires
        write.kind == RequestKind::WriteSingleCoil(write_addr, level),
        spec_coil_index(write_addr) is Ok,
        outputs.len() == MAX_NUMBER_OF_COILS,
        read.kind == RequestKind::ReadCoils(read_addr, quantity),
        spec_read_range(spec_coil_index(read_addr), quantity, MAX_NUMBER_OF_COILS) is Ok,
    ensures
        ({
            let written = reply_spec(write, ReadingsView::Nothing).coil_write;
            let pin = (write_addr - DO0_ADDR) as int;
            let after = outputs.update(pin, level);
            let s = (read_addr - DO0_ADDR) as int;
            let reply = reply_spec(read, ReadingsView::Levels(after.subrange(s, s + quantity)));
            &&& written == Some(CoilWrite { pin: pin as usize, level })
            &&& spec_read_plan(read.kind) matches Some(plan) && plan.first == s && plan.count
                == quantity
            &&& (s <= pin < s + quantity ==> (reply.response matches Ok(resp) && resp.body matches
                ResponseBodyView::ReadCoils(bits) && bits[pin - s] == level))
        }),
{
}

/// The same, for a read from the written address itself: its first coil is
/// the written level.
pub proof fn lemma_write_then_read_same_address(
    write: ModbusRequest,
    addr: u16,
    level: bool,
    outputs: Seq<bool>,
    read: ModbusRequest,
    quantity: u16,
)
    requires
        write.kind == RequestKind::WriteSingleCoil(addr, level),
        spec_coil_index(addr) is Ok,
        outputs.len() == MAX_NUMBER_OF_COILS,
        read.kind == RequestKind::ReadCoils(addr, quantity),
        1 <= quantity,
        addr - DO0_ADDR + quantity <= MAX_NUMBER_OF_COILS,
    ensures
        ({
            let pin = (addr - DO0_ADDR) as int;
            let after = outputs.update(pin, level);
            reply_spec(read, ReadingsView::Levels(after.subrange(pin, pin + quantity))).response matches Ok(
                resp,
            ) && resp.body matches ResponseBodyView::ReadCoils(bits) && bits[0] == level
        }),
{
    lemma_written_coil_reads_back(write, addr, level, outputs, read, addr, quantity);
}

/// Every reply to measurements that fit the request's plan can be framed.
pub proof fn lemma_replies_encodable(req: ModbusRequest, readings: ReadingsView)
    requires
        readings_fit(req.kind, readings),
    ensures
        reply_encodable(reply_spec(req, readings)),
{
}

/// A response frame starts with the MBAP header: the transaction id, protocol
/// id 0, the number of bytes that follow, and the unit id; then the function
/// code.
pub proof fn lemma_frame_starts_with_header(resp: ModbusResponseView)
    ensures
        ({
            let f = response_frame_bytes(resp);
            let pdu = response_pdu_bytes(resp.body);
            &&& f.len() == 7 + pdu.len()
            &&& f.subrange(0, 2) == be16(resp.transaction_id as int)
            &&& f[2] == 0 && f[3] == 0
            &&& f.subrange(4, 6) == be16(pdu.len() + 1int)
            &&& f[6] == resp.unit_id
            &&& f.subrange(7, f.len() as int) == pdu
        }),
{
    let f = response_frame_bytes(resp);
    let pdu = response_pdu_bytes(resp.body);
    assert(f.subrange(0, 2) =~= be16(resp.transaction_id as int));
    assert(f.subrange(4, 6) =~= be16(pdu.len() + 1int));
    assert(f.subrange(7, f.len() as int) =~= pdu);
}

} // verus!

verus! {

/// Coil reads. Address 0x0100 + `k` names digital output DO`k`, `k` < 4.
/// A read of `q` >= 1 coils from `a` that stays inside DO0..DO3 measures the
/// output levels DO`a - 0x0100` .. in order and answers exactly those levels.
/// A read of no coils at a defined address answers the outputs from there to
/// DO3, all unset, and measures nothing. Any other coil read is refused with
/// `NoAddressMatch` and measures nothing.
pub proof fn lemma_coil_reads(
    req: ModbusRequest,
    a: u16,
    q: u16,
    levels: Seq<bool>,
    readings: ReadingsView,
)
    requires
        req.kind == RequestKind::ReadCoils(a, q),
    ensures
        0x0100 <= a <= 0x0103 ==> spec_coil_index(a) == Ok::<usize, CallbackError>(
            (a - 0x0100) as usize,
        ),
        spec_read_plan(req.kind) matches Some(plan) ==> (plan.source == ReadSource::DigitalOutputs
            && plan.first == a - 0x0100 && plan.count == q && plan.first + plan.count <= 4),
        (0x0100 <= a && 1 <= q && a - 0x0100 + q <= 4) ==> {
            &&& spec_read_plan(req.kind) == Some(
                ReadPlan {
                    source: ReadSource::DigitalOutputs,
                    first: (a - 0x0100) as usize,
                    count: q as usize,
                },
            )
            &&& levels.len() == q ==> (reply_spec(req, ReadingsView::Levels(levels)).response
                matches Ok(resp) && resp.body == ResponseBodyView::ReadCoils(levels))
        },
        (q == 0 && 0x0100 <= a <= 0x0103) ==> {
            &&& spec_read_plan(req.kind) is None
            &&& reply_spec(req, readings).response matches Ok(resp) && resp.body matches
                ResponseBodyView::ReadCoils(bits) && bits.len() == 4 - (a - 0x0100) && forall|k: int|
                0 <= k < bits.len() ==> !#[trigger] bits[k]
        },
        !(0x0100 <= a && 1 <= q && a - 0x0100 + q <= 4) && !(q == 0 && 0x0100 <= a <= 0x0103) ==> {
            &&& spec_read_plan(req.kind) is None
            &&& reply_spec(req, readings).response == Err::<ModbusResponseView, CallbackError>(
                CallbackError::NoAddressMatch,
            )
            &&& reply_spec(req, readings).coil_write is None
        },
{
}

/// Discrete-input reads. Address `k` names digital input DI`k`, `k` <= 10.
/// A read of `q` >= 1 inputs from `a` that stays inside DI0..DI10 measures
/// the input levels DI`a` .. in order and answers exactly those levels. A
/// read of no inputs at a defined address answers the inputs from there to
/// DI10, all unset, and measures nothing. Any other discrete-input read is
/// refused with `NoAddressMatch` and measures nothing.
pub proof fn lemma_contact_reads(
    req: ModbusRequest,
    a: u16,
    q: u16,
    levels: Seq<bool>,
    readings: ReadingsView,
)
    requires
        req.kind == RequestKind::ReadDiscreteInputs(a, q),
    ensures
        a <= 10 ==> spec_contact_index(a) == Ok::<usize, CallbackError>(a as usize),
        spec_read_plan(req.kind) matches Some(plan) ==> (plan.source == ReadSource::DigitalInputs
            && plan.first == a && plan.count == q && plan.first + plan.count <= 11),
        (1 <= q && a + q <= 11) ==> {
            &&& spec_read_plan(req.kind) == Some(
                ReadPlan { source: ReadSource::DigitalInputs, first: a as usize, count: q as usize },
            )
            &&& levels.len() == q ==> (reply_spec(req, ReadingsView::Levels(levels)).response
                matches Ok(resp) && resp.body == ResponseBodyView::ReadDiscreteInputs(levels))
        },
        (q == 0 && a <= 10) ==> {
            &&& spec_read_plan(req.kind) is None
            &&& reply_spec(req, readings).response matches Ok(resp) && resp.body matches
                ResponseBodyView::ReadDiscreteInputs(bits) && bits.len() == 11 - a && forall|k: int|
                0 <= k < bits.len() ==> !#[trigger] bits[k]
        },
        !(1 <= q && a + q <= 11) && !(q == 0 && a <= 10) ==> {
            &&& spec_read_plan(req.kind) is None
            &&& reply_spec(req, readings).response == Err::<ModbusResponseView, CallbackError>(
                CallbackError::NoAddressMatch,
            )
            &&& reply_spec(req, readings).coil_write is None
        },
{
}

/// The position that an input-register address has in the five-register
/// input block: 0 for ANA0, ANV0 and the first model-name register, 1 for
/// ANA1, ANV1 and the second, 2, 3, 4 for the major, minor and patch version.
pub open spec fn register_position(a: u16) -> int {
    if a == 0x0210 || a == 0x0200 || a == 0x0F00 {
        0
    } else if a == 0x0211 || a == 0x0201 || a == 0x0F01 {
        1
    } else if a == 0x0F10 {
        2
    } else if a == 0x0F11 {
        3
    } else {
        4
    }
}

/// Input-register reads that are answered with data: `q` >= 1 registers
/// inside one analog block (two channels) or inside the information block
/// (five registers).
pub open spec fn register_read_in_range(a: u16, q: u16) -> bool {
    1 <= q && (((0x0210 <= a <= 0x0211 || 0x0200 <= a <= 0x0201) && register_position(a) + q <= 2)
        || ((0x0F00 <= a <= 0x0F01 || 0x0F10 <= a <= 0x0F12) && register_position(a) + q <= 5))
}

/// The defined input-register addresses.
pub open spec fn register_defined(a: u16) -> bool {
    0x0210 <= a <= 0x0211 || 0x0200 <= a <= 0x0201 || 0x0F00 <= a <= 0x0F01 || 0x0F10 <= a
        <= 0x0F12
}

/// Analog register reads: a read of `q` registers from 0x0210 + `c`
/// (current) or 0x0200 + `c` (voltage), `c + q` at most 2, measures channels
/// `c .. c + q` of that kind and answers each measurement truncated to 16
/// bits, in order; a register read measures current exactly at 0x0210/0x0211
/// and voltage exactly at 0x0200/0x0201.
pub proof fn lemma_analog_reads(req: ModbusRequest, a: u16, q: u16, analog: Seq<u32>)
    requires
        req.kind == RequestKind::ReadInputRegisters(a, q),
    ensures
        spec_read_plan(req.kind) matches Some(plan) ==> {
            &&& plan.count == q
            &&& (plan.source == ReadSource::CurrentInputs) == (0x0210 <= a <= 0x0211)
            &&& (plan.source == ReadSource::VoltageInputs) == (0x0200 <= a <= 0x0201)
            &&& plan.source == ReadSource::CurrentInputs || plan.source == ReadSource::VoltageInputs
            &&& plan.source == ReadSource::CurrentInputs ==> plan.first == a - 0x0210
            &&& plan.source == ReadSource::VoltageInputs ==> plan.first == a - 0x0200
            &&& plan.first + plan.count <= 2
        },
        (0x0210 <= a <= 0x0211 && 1 <= q && a - 0x0210 + q <= 2) ==> spec_read_plan(req.kind)
            == Some(
            ReadPlan { source: ReadSource::CurrentInputs, first: (a - 0x0210) as usize, count: q as usize },
        ),
        (0x0200 <= a <= 0x0201 && 1 <= q && a - 0x0200 + q <= 2) ==> spec_read_plan(req.kind)
            == Some(
            ReadPlan { source: ReadSource::VoltageInputs, first: (a - 0x0200) as usize, count: q as usize },
        ),
        ((0x0210 <= a <= 0x0211 && a - 0x0210 + q <= 2) || (0x0200 <= a <= 0x0201 && a - 0x0200 + q
            <= 2)) && 1 <= q && analog.len() == q ==> (reply_spec(req, ReadingsView::Analog(analog)).response
            matches Ok(resp) && resp.body matches ResponseBodyView::ReadInputRegisters(w)
            && w.len() == q && forall|k: int| 0 <= k < q ==> #[trigger] w[k] == analog[k] as u16),
{
}

/// Information register reads: 0x0F00/0x0F01 hold the model name 0x494F,
/// 0x4300 and 0x0F10..0x0F12 the firmware version 0.1.0, five registers in
/// address order; a read of `q` >= 1 of them from `a` that stays in the block
/// measures nothing and answers the `q` registers from `a` on.
pub proof fn lemma_info_reads(req: ModbusRequest, a: u16, q: u16)
    requires
        req.kind == RequestKind::ReadInputRegisters(a, q),
        (0x0F00 <= a <= 0x0F01 || 0x0F10 <= a <= 0x0F12),
        1 <= q,
        register_position(a) + q <= 5,
    ensures
        ({
            let block = seq![0x494Fu16, 0x4300u16, 0u16, 1u16, 0u16];
            &&& spec_read_plan(req.kind) is None
            &&& reply_spec(req, ReadingsView::Nothing).coil_write is None
            &&& reply_spec(req, ReadingsView::Nothing).response matches Ok(resp)
                && resp.body matches ResponseBodyView::ReadInputRegisters(w) && w.len() == q
                && forall|k: int| 0 <= k < q ==> #[trigger] w[k] == block[register_position(a) + k]
        }),
{
    let block = seq![0x494Fu16, 0x4300u16, 0u16, 1u16, 0u16];
    assert(crate::registers::info_registers() =~= block);
}

/// Input-register reads of no registers at a defined address answer the
/// input block from that address's position to its end, all zero, and
/// measure nothing; reads at undefined addresses, and reads of one or more
/// registers that leave their block, are refused with `NoAddressMatch`.
pub proof fn lemma_register_reads_refused_or_zero(
    req: ModbusRequest,
    a: u16,
    q: u16,
    readings: ReadingsView,
)
    requires
        req.kind == RequestKind::ReadInputRegisters(a, q),
    ensures
        (q == 0 && register_defined(a)) ==> {
            &&& spec_read_plan(req.kind) is None
            &&& reply_spec(req, readings).response matches Ok(resp) && resp.body matches
                ResponseBodyView::ReadInputRegisters(w) && w.len() == 5 - register_position(a)
                && forall|k: int| 0 <= k < w.len() ==> #[trigger] w[k] == 0
        },
        !register_read_in_range(a, q) && !(q == 0 && register_defined(a)) ==> {
            &&& spec_read_plan(req.kind) is None
            &&& reply_spec(req, readings).response == Err::<ModbusResponseView, CallbackError>(
                CallbackError::NoAddressMatch,
            )
            &&& reply_spec(req, readings).coil_write is None
        },
{
}

/// A write to 0x0100 + `k`, `k` < 4, drives exactly digital output DO`k` to
/// the written level and echoes the address; a write to any other address
/// drives nothing and is refused with `NoAddressMatch`.
pub proof fn lemma_coil_write_by_address(
    req: ModbusRequest,
    addr: u16,
    level: bool,
    readings: ReadingsView,
)
    requires
        req.kind == RequestKind::WriteSingleCoil(addr, level),
    ensures
        0x0100 <= addr <= 0x0103 ==> {
            &&& reply_spec(req, readings).coil_write == Some(
                CoilWrite { pin: (addr - 0x0100) as usize, level },
            )
            &&& reply_spec(req, readings).response matches Ok(resp) && resp.body
                == ResponseBodyView::WriteSingleCoil(addr)
        },
        !(0x0100 <= addr <= 0x0103) ==> {
            &&& reply_spec(req, readings).coil_write is None
            &&& reply_spec(req, readings).response == Err::<ModbusResponseView, CallbackError>(
                CallbackError::NoAddressMatch,
            )
        },
{
}

/// A level written to an output is what a later read of the coils returns
/// for it: after the write to `write_addr` is applied to the outputs, a read
/// of `quantity` coils from `read_addr` that covers the written output, with
/// the levels its plan measures, returns the written level at that output's
/// place.
pub proof fn lemma_measured_coil_reads_back(
    write: ModbusRequest,
    write_addr: u16,
    level: bool,
    outputs: Seq<bool>,
    read: ModbusRequest,
    read_addr: u16,
    quantity: u16,
)
    requires
        write.kind == RequestKind::WriteSingleCoil(write_addr, level),
        0x0100 <= write_addr <= 0x0103,
        outputs.len() == 4,
        read.kind == RequestKind::ReadCoils(read_addr, quantity),
        0x0100 <= read_addr,
        1 <= quantity,
        read_addr - 0x0100 + quantity <= 4,
    ensures
        ({
            let written = reply_spec(write, ReadingsView::Nothing).coil_write;
            let pin = (write_addr - 0x0100) as int;
            let after = outputs.update(pin, level);
            let reply = spec_read_plan(read.kind) matches Some(plan) && reply_spec(
                read,
                ReadingsView::Levels(after.subrange(plan.first as int, plan.first + plan.count)),
            ).response matches Ok(resp) && resp.body matches ResponseBodyView::ReadCoils(bits) && (
            read_addr - 0x0100 <= pin < read_addr - 0x0100 + quantity ==> bits[pin - (read_addr
                - 0x0100)] == level);
            &&& written == Some(CoilWrite { pin: pin as usize, level })
            &&& reply
        }),
{
    lemma_coil_reads(read, read_addr, quantity, Seq::empty(), ReadingsView::Nothing);
}

/// Bit `j` of a byte value, counting from the least significant.
pub open spec fn bit_of(byte: int, j: nat) -> int
    decreases j,
{
    if j == 0 {
        byte % 2
    } else {
        bit_of(byte / 2, (j - 1) as nat)
    }
}

/// The number of values that `width` bits can hold.
pub open spec fn bit_cap(width: nat) -> int
    decreases width,
{
    if width == 0 {
        1
    } else {
        2 * bit_cap((width - 1) as nat)
    }
}

proof fn lemma_packed_bits(bits: Seq<bool>, from: int, width: nat, j: nat)
    requires
        j < width,
    ensures
        bit_of(packed_bits(bits, from, width) as int, j) == (if 0 <= from + j < bits.len()
            && bits[from + j] { 1int } else { 0int }),
        packed_bits(bits, from, width) < bit_cap(width),
    decreases width,
{
    if width > 1 {
        if j > 0 {
            lemma_packed_bits(bits, from + 1, (width - 1) as nat, (j - 1) as nat);
        } else {
            lemma_packed_bits(bits, from + 1, (width - 1) as nat, 0);
        }
    } else {
        assert(packed_bits(bits, from + 1, 0) == 0);
        assert(bit_cap(0) == 1);
    }
}

/// The bytes of a response frame: transaction id (big-endian), protocol id
/// 0, the number of bytes that follow (big-endian), the unit id, then the
/// function code and its data: for coils and inputs (code 1, 2) the byte
/// count and the levels eight to a byte, the first in the lowest bit; for
/// registers (code 4) the byte count and each register big-endian; for a
/// coil write (code 5) the address big-endian.
pub proof fn lemma_frame_bytes(resp: ModbusResponseView)
    requires
        crate::frame::encodable(resp),
    ensures
        ({
            let f = response_frame_bytes(resp);
            &&& f[0] == resp.transaction_id / 256 && f[1] == resp.transaction_id % 256
            &&& f[2] == 0 && f[3] == 0
            &&& f[4] * 256 + f[5] == f.len() - 6
            &&& f[6] == resp.unit_id
            &&& match resp.body {
                ResponseBodyView::ReadCoils(bits) => f[7] == 1 && f[8] == (bits.len() + 7) / 8
                    && f.len() == 9 + (bits.len() + 7) / 8 && forall|k: int|
                    0 <= k < bits.len() ==> bit_of(#[trigger] f[9 + k / 8] as int, (k % 8) as nat)
                    == (if bits[k] { 1int } else { 0int }),
                ResponseBodyView::ReadDiscreteInputs(bits) => f[7] == 2 && f[8] == (bits.len() + 7)
                    / 8 && f.len() == 9 + (bits.len() + 7) / 8 && forall|k: int|
                    0 <= k < bits.len() ==> bit_of(#[trigger] f[9 + k / 8] as int, (k % 8) as nat)
                    == (if bits[k] { 1int } else { 0int }),
                ResponseBodyView::ReadInputRegisters(w) => f[7] == 4 && f[8] == 2 * w.len()
                    && f.len() == 9 + 2 * w.len() && forall|k: int|
                    0 <= k < w.len() ==> #[trigger] f[9 + 2 * k] == w[k] / 256 && f[10 + 2 * k]
                    == w[k] % 256,
                ResponseBodyView::WriteSingleCoil(a) => f[7] == 5 && f[8] == a / 256 && f[9] == a
                    % 256 && f.len() == 10,
            }
        }),
{
    let f = response_frame_bytes(resp);
    match resp.body {
        ResponseBodyView::ReadCoils(bits) => {
            assert forall|k: int| 0 <= k < bits.len() implies bit_of(
                #[trigger] f[9 + k / 8] as int,
                (k % 8) as nat,
            ) == (if bits[k] { 1int } else { 0int }) by {
                lemma_packed_bits(bits, 8 * (k / 8), 8, (k % 8) as nat);
                assert(bit_cap(8) == 256) by {
                    reveal_with_fuel(bit_cap, 9);
                }
            }
        },
        ResponseBodyView::ReadDiscreteInputs(bits) => {
            assert forall|k: int| 0 <= k < bits.len() implies bit_of(
                #[trigger] f[9 + k / 8] as int,
                (k % 8) as nat,
            ) == (if bits[k] { 1int } else { 0int }) by {
                lemma_packed_bits(bits, 8 * (k / 8), 8, (k % 8) as nat);
                assert(bit_cap(8) == 256) by {
                    reveal_with_fuel(bit_cap, 9);
                }
            }
        },
        _ => {},
    }
}

/// The step taken for a decoded request is that request's own: the plan's
/// measurements if it needs any, else the reply to that very request.
pub proof fn lemma_step_serves_decoded_request(req: ModbusRequest)
    ensures
        spec_read_plan(req.kind) matches Some(plan) ==> step_for(DecodeOutcome::Request(req))
            == StepView::Measure(req, plan),
        spec_read_plan(req.kind) is None ==> step_for(DecodeOutcome::Request(req))
            == StepView::Respond(reply_spec(req, ReadingsView::Nothing)),
{
}

/// A decoded coil write is answered at once: the step drives output
/// DO`a - 0x0100` to the written level and echoes the address with the
/// request's header.
pub proof fn lemma_write_step_drives_written_level(req: ModbusRequest, a: u16, v: bool)
    requires
        req.kind == RequestKind::WriteSingleCoil(a, v),
        0x0100 <= a <= 0x0103,
    ensures
        step_for(DecodeOutcome::Request(req)) matches StepView::Respond(r) && r.response matches Ok(
            resp,
        ) && r.coil_write == Some(CoilWrite { pin: (a - 0x0100) as usize, level: v })
            && resp.transaction_id == req.transaction_id && resp.unit_id == req.unit_id
            && resp.body == ResponseBodyView::WriteSingleCoil(a),
{
}

/// A non-empty receive is decoded as a whole buffer and served by the step
/// for what it decodes to; a failed receive or the end of the stream closes
/// the transaction; a buffer holding no complete request, or a malformed
/// one, closes it too.
pub proof fn lemma_first_step(received: Option<usize>, buffer: Seq<u8>)
    ensures
        received is None ==> first_step(received, buffer) == StepView::Close(
            CloseReason::ReceiveFailed,
        ),
        received == Some(0usize) ==> first_step(received, buffer) == StepView::Close(
            CloseReason::EndOfStream,
        ),
        received matches Some(n) && n > 0 ==> first_step(received, buffer) == step_for(
            decoded_request(buffer),
        ),
        step_for(DecodeOutcome::Incomplete) == StepView::Close(CloseReason::IncompleteRequest),
        step_for(DecodeOutcome::Malformed) == StepView::Close(CloseReason::MalformedRequest),
{
}

} // verus!
