use iriv_io_modbus::frame::{is_decodable, DecodeOutcome, ModbusRequest, ModbusResponse, RequestKind, ResponseBody};
use iriv_io_modbus::registers::CallbackError;
use iriv_io_modbus::server::{
    complete_request, next_step, read_plan, read_range, response_frame, start_transaction,
    CloseReason, CoilWrite, ReadPlan, ReadSource, Readings, Reply, Step,
};

/// A 1024-byte receive buffer that starts with `frame`.
fn receive_buffer(frame: &[u8]) -> Vec<u8> {
    let mut buf = vec![0u8; 1024];
    buf[..frame.len()].copy_from_slice(frame);
    buf
}

fn request(kind: RequestKind) -> ModbusRequest {
    ModbusRequest { transaction_id: 0x0001, unit_id: 0x11, kind }
}

fn padded(bytes: &[u8]) -> [u8; 64] {
    let mut out = [0u8; 64];
    out[..bytes.len()].copy_from_slice(bytes);
    out
}

fn answered(body: ResponseBody) -> Result<ModbusResponse, CallbackError> {
    Ok(ModbusResponse { transaction_id: 1, unit_id: 0x11, body })
}

fn refused() -> Reply {
    Reply { response: Err(CallbackError::NoAddressMatch), coil_write: None }
}

#[test]
fn read_range_checks_block_bounds() {
    assert_eq!(read_range(Ok(1), 3, 4), Ok(1));
    assert_eq!(read_range(Ok(1), 4, 4), Err(CallbackError::NoAddressMatch));
    assert_eq!(read_range(Ok(0), 0, 4), Err(CallbackError::NoAddressMatch));
    assert_eq!(read_range(Err(CallbackError::NoAddressMatch), 1, 4), Err(CallbackError::NoAddressMatch));
}

#[test]
fn read_coils_request_asks_for_output_levels() {
    let buf = receive_buffer(&[0x00, 0x01, 0x00, 0x00, 0x00, 0x06, 0x11, 0x01, 0x01, 0x00, 0x00, 0x04]);
    let step = start_transaction(Some(12), &buf);
    assert_eq!(
        step,
        Step::Measure(
            request(RequestKind::ReadCoils(0x0100, 4)),
            ReadPlan { source: ReadSource::DigitalOutputs, first: 0, count: 4 },
        )
    );
}

#[test]
fn read_coils_reply_and_frame() {
    let req = request(RequestKind::ReadCoils(0x0100, 4));
    let reply = complete_request(&req, Readings::Levels(vec![true, false, true, true]));
    assert_eq!(
        reply,
        Reply { response: answered(ResponseBody::ReadCoils(vec![true, false, true, true])), coil_write: None }
    );
    let frame = response_frame(&reply).unwrap();
    assert_eq!(frame, padded(&[0x00, 0x01, 0x00, 0x00, 0x00, 0x04, 0x11, 0x01, 0x01, 0x0d]));
}

#[test]
fn read_coils_from_later_address_reads_requested_outputs() {
    let req = request(RequestKind::ReadCoils(0x0101, 2));
    assert_eq!(read_plan(req.kind), Some(ReadPlan { source: ReadSource::DigitalOutputs, first: 1, count: 2 }));
    // levels of DO1 and DO2
    let reply = complete_request(&req, Readings::Levels(vec![false, true]));
    assert_eq!(reply.response, answered(ResponseBody::ReadCoils(vec![false, true])));
}

#[test]
fn read_coils_unknown_address_is_refused() {
    let req = request(RequestKind::ReadCoils(0x0300, 1));
    assert_eq!(read_plan(req.kind), None);
    assert_eq!(complete_request(&req, Readings::Nothing), refused());
    assert_eq!(response_frame(&refused()), None);
}

#[test]
fn read_past_block_end_is_refused() {
    let req = request(RequestKind::ReadCoils(0x0102, 3));
    assert_eq!(read_plan(req.kind), None);
    assert_eq!(next_step(DecodeOutcome::Request(req)), Step::Respond(refused()));
    let req = request(RequestKind::ReadDiscreteInputs(0x0000, 12));
    assert_eq!(next_step(DecodeOutcome::Request(req)), Step::Respond(refused()));
    let req = request(RequestKind::ReadInputRegisters(0x0f11, 3));
    assert_eq!(next_step(DecodeOutcome::Request(req)), Step::Respond(refused()));
    let req = request(RequestKind::ReadInputRegisters(0x0211, 2));
    assert_eq!(next_step(DecodeOutcome::Request(req)), Step::Respond(refused()));
}

#[test]
fn read_of_no_coils_answers_rest_of_block_unset() {
    let req = request(RequestKind::ReadCoils(0x0100, 0));
    assert_eq!(read_plan(req.kind), None);
    assert_eq!(
        next_step(DecodeOutcome::Request(req)),
        Step::Respond(Reply { response: answered(ResponseBody::ReadCoils(vec![false; 4])), coil_write: None })
    );
    let req = request(RequestKind::ReadCoils(0x0102, 0));
    let reply = complete_request(&req, Readings::Nothing);
    assert_eq!(reply.response, answered(ResponseBody::ReadCoils(vec![false; 2])));
    assert_eq!(
        response_frame(&reply).unwrap(),
        padded(&[0x00, 0x01, 0x00, 0x00, 0x00, 0x04, 0x11, 0x01, 0x01, 0x00])
    );
}

#[test]
fn read_of_no_inputs_answers_rest_of_block_unset() {
    let req = request(RequestKind::ReadDiscreteInputs(0x0003, 0));
    let reply = complete_request(&req, Readings::Nothing);
    assert_eq!(reply.response, answered(ResponseBody::ReadDiscreteInputs(vec![false; 8])));
}

#[test]
fn read_of_no_registers_answers_rest_of_block_zero() {
    let req = request(RequestKind::ReadInputRegisters(0x0f11, 0));
    let reply = complete_request(&req, Readings::Nothing);
    assert_eq!(reply.response, answered(ResponseBody::ReadInputRegisters(vec![0, 0])));
    let req = request(RequestKind::ReadInputRegisters(0x0210, 0));
    assert_eq!(read_plan(req.kind), None);
    let reply = complete_request(&req, Readings::Nothing);
    assert_eq!(reply.response, answered(ResponseBody::ReadInputRegisters(vec![0; 5])));
    assert!(response_frame(&reply).is_some());
}

#[test]
fn read_of_no_items_at_undefined_address_is_refused() {
    let req = request(RequestKind::ReadCoils(0x0104, 0));
    assert_eq!(complete_request(&req, Readings::Nothing), refused());
}

#[test]
fn short_receive_buffer_holding_one_request_decodes() {
    let buf = [0x00, 0x01, 0x00, 0x00, 0x00, 0x06, 0x11, 0x01, 0x01, 0x00, 0x00, 0x04];
    assert!(is_decodable(&buf));
    assert_eq!(
        start_transaction(Some(12), &buf),
        Step::Measure(
            request(RequestKind::ReadCoils(0x0100, 4)),
            ReadPlan { source: ReadSource::DigitalOutputs, first: 0, count: 4 },
        )
    );
}

#[test]
fn decodable_buffers() {
    assert!(is_decodable(&[]));
    assert!(is_decodable(&[0u8; 268]));
    let mut buf = [0u8; 12];
    buf[8] = 0x0f; // byte 7 of the candidate frame starting one byte in
    assert!(!is_decodable(&buf));
    buf[8] = 0x10;
    assert!(!is_decodable(&buf));
    buf[8] = 0;
    buf[7] = 0x10; // byte 7 of the 12-byte frame
    assert!(!is_decodable(&buf));
    let mut long = [0u8; 268];
    long[264] = 0x0f;
    assert!(is_decodable(&long));
}

#[test]
fn read_discrete_inputs_reply_and_frame() {
    let req = request(RequestKind::ReadDiscreteInputs(0x0002, 9));
    assert_eq!(read_plan(req.kind), Some(ReadPlan { source: ReadSource::DigitalInputs, first: 2, count: 9 }));
    let reply = complete_request(&req, Readings::Levels(vec![true; 9]));
    assert_eq!(reply.response, answered(ResponseBody::ReadDiscreteInputs(vec![true; 9])));
    let frame = response_frame(&reply).unwrap();
    assert_eq!(
        frame,
        padded(&[0x00, 0x01, 0x00, 0x00, 0x00, 0x05, 0x11, 0x02, 0x02, 0xff, 0x01])
    );
}

#[test]
fn read_two_inputs_from_second_contact() {
    let req = request(RequestKind::ReadDiscreteInputs(0x0001, 2));
    assert_eq!(read_plan(req.kind), Some(ReadPlan { source: ReadSource::DigitalInputs, first: 1, count: 2 }));
    let reply = complete_request(&req, Readings::Levels(vec![false, true]));
    assert_eq!(reply.response, answered(ResponseBody::ReadDiscreteInputs(vec![false, true])));
}

#[test]
fn minor_version_register_reads_one() {
    let buf = receive_buffer(&[0x00, 0x01, 0x00, 0x00, 0x00, 0x06, 0x01, 0x04, 0x0f, 0x11, 0x00, 0x01]);
    let expected = Reply {
        response: Ok(ModbusResponse {
            transaction_id: 1,
            unit_id: 0x01,
            body: ResponseBody::ReadInputRegisters(vec![1]),
        }),
        coil_write: None,
    };
    let step = start_transaction(Some(12), &buf);
    assert_eq!(step, Step::Respond(expected));
    if let Step::Respond(reply) = step {
        assert_eq!(
            response_frame(&reply).unwrap(),
            padded(&[0x00, 0x01, 0x00, 0x00, 0x00, 0x05, 0x01, 0x04, 0x02, 0x00, 0x01])
        );
    }
}

#[test]
fn model_name_registers_read_ioc() {
    let buf = receive_buffer(&[0x00, 0x01, 0x00, 0x00, 0x00, 0x06, 0x01, 0x04, 0x0f, 0x00, 0x00, 0x02]);
    match start_transaction(Some(12), &buf) {
        Step::Respond(reply) => {
            assert_eq!(reply.coil_write, None);
            assert_eq!(
                response_frame(&reply).unwrap(),
                padded(&[0x00, 0x01, 0x00, 0x00, 0x00, 0x07, 0x01, 0x04, 0x04, 0x49, 0x4f, 0x43, 0x00])
            );
        }
        other => panic!("unexpected step {:?}", other),
    }
}

#[test]
fn firmware_version_registers_read_0_1_0() {
    let buf = receive_buffer(&[0x00, 0x02, 0x00, 0x00, 0x00, 0x06, 0x01, 0x04, 0x0f, 0x10, 0x00, 0x03]);
    match start_transaction(Some(12), &buf) {
        Step::Respond(reply) => {
            assert_eq!(
                response_frame(&reply).unwrap(),
                padded(&[0x00, 0x02, 0x00, 0x00, 0x00, 0x09, 0x01, 0x04, 0x06, 0x00, 0x00, 0x00, 0x01, 0x00, 0x00])
            );
        }
        other => panic!("unexpected step {:?}", other),
    }
}

#[test]
fn whole_information_block_reads_in_address_order() {
    let req = request(RequestKind::ReadInputRegisters(0x0f00, 5));
    let reply = complete_request(&req, Readings::Nothing);
    assert_eq!(reply.response, answered(ResponseBody::ReadInputRegisters(vec![0x494f, 0x4300, 0, 1, 0])));
    assert!(response_frame(&reply).is_some());
}

#[test]
fn analog_current_registers_are_measured_and_answered() {
    let req = request(RequestKind::ReadInputRegisters(0x0210, 2));
    assert_eq!(read_plan(req.kind), Some(ReadPlan { source: ReadSource::CurrentInputs, first: 0, count: 2 }));
    let reply = complete_request(&req, Readings::Analog(vec![4000, 20000]));
    assert_eq!(reply.response, answered(ResponseBody::ReadInputRegisters(vec![4000, 20000])));
    let frame = response_frame(&reply).unwrap();
    assert_eq!(
        frame,
        padded(&[0x00, 0x01, 0x00, 0x00, 0x00, 0x07, 0x11, 0x04, 0x04, 0x0f, 0xa0, 0x4e, 0x20])
    );
}

#[test]
fn analog_voltage_register_truncates_to_16_bits() {
    let req = request(RequestKind::ReadInputRegisters(0x0201, 1));
    assert_eq!(read_plan(req.kind), Some(ReadPlan { source: ReadSource::VoltageInputs, first: 1, count: 1 }));
    let reply = complete_request(&req, Readings::Analog(vec![0x0001_2345]));
    assert_eq!(reply.response, answered(ResponseBody::ReadInputRegisters(vec![0x2345])));
}

#[test]
fn undefined_input_register_is_refused() {
    let req = request(RequestKind::ReadInputRegisters(0x0f02, 1));
    assert_eq!(read_plan(req.kind), None);
    assert_eq!(complete_request(&req, Readings::Nothing), refused());
}

#[test]
fn write_single_coil_drives_output_and_echoes_address() {
    let buf = receive_buffer(&[0x00, 0x07, 0x00, 0x00, 0x00, 0x06, 0x11, 0x05, 0x01, 0x02, 0xff, 0x00]);
    let step = start_transaction(Some(12), &buf);
    let expected = Reply {
        response: Ok(ModbusResponse {
            transaction_id: 7,
            unit_id: 0x11,
            body: ResponseBody::WriteSingleCoil(0x0102),
        }),
        coil_write: Some(CoilWrite { pin: 2, level: true }),
    };
    assert_eq!(step, Step::Respond(expected));
    if let Step::Respond(reply) = step {
        let frame = response_frame(&reply).unwrap();
        assert_eq!(frame, padded(&[0x00, 0x07, 0x00, 0x00, 0x00, 0x04, 0x11, 0x05, 0x01, 0x02]));
    }
}

#[test]
fn write_to_unknown_coil_is_refused() {
    let req = request(RequestKind::WriteSingleCoil(0x0200, false));
    let reply = complete_request(&req, Readings::Nothing);
    assert_eq!(reply, refused());
    assert_eq!(response_frame(&reply), None);
}

#[test]
fn unsupported_function_is_refused() {
    // Write single register (function 0x06) is decoded but not served.
    let buf = receive_buffer(&[0x00, 0x2a, 0x00, 0x00, 0x00, 0x06, 0x12, 0x06, 0x22, 0x22, 0xab, 0xcd]);
    let step = start_transaction(Some(12), &buf);
    assert_eq!(
        step,
        Step::Respond(Reply { response: Err(CallbackError::NoSupportedRequestMatch), coil_write: None })
    );
}

#[test]
fn end_of_stream_and_failed_receive_close() {
    let buf = vec![0u8; 4];
    assert_eq!(start_transaction(Some(0), &buf), Step::Close(CloseReason::EndOfStream));
    assert_eq!(start_transaction(None, &buf), Step::Close(CloseReason::ReceiveFailed));
}

#[test]
fn garbage_is_malformed() {
    let buf = vec![0u8; 1024];
    assert_eq!(start_transaction(Some(1024), &buf), Step::Close(CloseReason::MalformedRequest));
}

#[test]
fn truncated_frame_is_incomplete() {
    // A read/write-multiple-registers header announcing more bytes than the buffer holds.
    let mut buf = vec![0u8; 268];
    buf[7] = 0x17;
    buf[16] = 0xff;
    assert_eq!(start_transaction(Some(20), &buf), Step::Close(CloseReason::IncompleteRequest));
}

#[test]
fn decode_outcomes_without_request_close() {
    assert_eq!(next_step(DecodeOutcome::Incomplete), Step::Close(CloseReason::IncompleteRequest));
    assert_eq!(next_step(DecodeOutcome::Malformed), Step::Close(CloseReason::MalformedRequest));
}

#[test]
fn invalid_coil_value_is_malformed() {
    // A write-single-coil value other than 0xFF00 or 0x0000 is rejected by the decoder.
    let buf = receive_buffer(&[0x00, 0x07, 0x00, 0x00, 0x00, 0x06, 0x11, 0x05, 0x01, 0x02, 0x12, 0x34]);
    assert_eq!(start_transaction(Some(12), &buf), Step::Close(CloseReason::MalformedRequest));
}

#[test]
fn read_coils_frame_decodes_transaction_header() {
    let buf = receive_buffer(&[0xbe, 0xef, 0x00, 0x00, 0x00, 0x06, 0x2a, 0x01, 0x01, 0x03, 0x00, 0x01]);
    match start_transaction(Some(12), &buf) {
        Step::Measure(req, plan) => {
            assert_eq!(req.transaction_id, 0xbeef);
            assert_eq!(req.unit_id, 0x2a);
            assert_eq!(req.kind, RequestKind::ReadCoils(0x0103, 1));
            assert_eq!(plan, ReadPlan { source: ReadSource::DigitalOutputs, first: 3, count: 1 });
            let reply = complete_request(&req, Readings::Levels(vec![false]));
            let frame = response_frame(&reply).unwrap();
            assert_eq!(frame, padded(&[0xbe, 0xef, 0x00, 0x00, 0x00, 0x04, 0x2a, 0x01, 0x01, 0x00]));
        }
        other => panic!("unexpected step {:?}", other),
    }
}

#[test]
fn written_coil_reads_back() {
    let write = request(RequestKind::WriteSingleCoil(0x0102, true));
    let reply = complete_request(&write, Readings::Nothing);
    let mut outputs = vec![false; 4];
    let w = reply.coil_write.unwrap();
    outputs[w.pin] = w.level;
    let read = request(RequestKind::ReadCoils(0x0102, 1));
    let plan = read_plan(read.kind).unwrap();
    let levels = outputs[plan.first..plan.first + plan.count].to_vec();
    let reply = complete_request(&read, Readings::Levels(levels));
    assert_eq!(reply.response, answered(ResponseBody::ReadCoils(vec![true])));
}
