use modbus_core::client::encode_req;
use modbus_core::client::ModbusClient;
use modbus_core::err::ModbusError;
use modbus_core::pdu::ErrorResponse;
use modbus_core::pdu::ModbusRequest;
use modbus_core::pdu::ModbusResponse;
use modbus_core::pdu::ReadHoldingRegisterResponse;
use modbus_core::pdu::ReadHoldingRegistersRequest;
use modbus_core::server::gen_write_buf;
use modbus_core::server::handle_frame;
use modbus_core::store::RegisterStore;
use modbus_core::transaction::TransactionManager;

fn unwrap_values(resp: ModbusResponse) -> Vec<u16> {
    match resp {
        ModbusResponse::ReadHoldingRegisterResponse(inner) => inner.values,
        _ => panic!("expected register values"),
    }
}

#[test]
fn read_holding_register1() {
    let read_buf = [0x00, 0x00, 0x00, 0x00, 0x00, 0x05, 0xFF, 0x03, 0x02, 0x12, 0x34];
    let mut client = ModbusClient::new(255, 1000);
    client.read_holding_register(0x0000, 0x0001, 0).unwrap();
    let data = unwrap_values(client.on_response(&read_buf).unwrap());
    assert_eq!(data, vec![0x1234]);
}

#[test]
fn read_holding_register2() {
    let read_buf = [0x00, 0x00, 0x00, 0x00, 0x00, 0x07, 0xFF, 0x03, 0x04, 0x12, 0x34, 0x56, 0x78];
    let mut client = ModbusClient::new(255, 1000);
    client.read_holding_register(0x0000, 0x0002, 0).unwrap();
    let data = unwrap_values(client.on_response(&read_buf).unwrap());
    assert_eq!(data, vec![0x1234, 0x5678]);
}

#[test]
fn client_request_exact_bytes() {
    let mut client = ModbusClient::new(255, 1000);
    let tx = client.read_holding_register(0x0000, 0x0001, 0).unwrap();
    assert_eq!(
        tx,
        vec![0x00, 0x00, 0x00, 0x00, 0x00, 0x06, 0xFF, 0x03, 0x00, 0x00, 0x00, 0x01]
    );
}

#[test]
fn client_rejects_quantity_bounds() {
    let mut client = ModbusClient::new(255, 1000);
    assert_eq!(
        client.read_holding_register(0x0000, 0, 0),
        Err(ModbusError::InvalidQuantity)
    );
    assert_eq!(
        client.read_holding_register(0x0000, 126, 0),
        Err(ModbusError::InvalidQuantity)
    );
    // a refused quantity leaves the session idle
    assert!(client.read_holding_register(0x0000, 1, 0).is_ok());
}

#[test]
fn client_second_request_while_outstanding_fails_fast() {
    let mut client = ModbusClient::new(255, 1000);
    client.read_holding_register(0x0000, 1, 0).unwrap();
    assert_eq!(
        client.read_holding_register(0x0000, 1, 0),
        Err(ModbusError::SessionBusy)
    );
}

#[test]
fn unsolicited_response_keeps_waiting() {
    let mut client = ModbusClient::new(255, 1000);
    client.read_holding_register(0x0000, 1, 0).unwrap();
    // transaction id 7 does not match the outstanding id 0
    let stray = [0x00, 0x07, 0x00, 0x00, 0x00, 0x05, 0xFF, 0x03, 0x02, 0x12, 0x34];
    assert_eq!(
        client.on_response(&stray),
        Err(ModbusError::UnsolicitedResponse)
    );
    // the original request is still outstanding and its response still lands
    let matching = [0x00, 0x00, 0x00, 0x00, 0x00, 0x05, 0xFF, 0x03, 0x02, 0x12, 0x34];
    let data = unwrap_values(client.on_response(&matching).unwrap());
    assert_eq!(data, vec![0x1234]);
}

#[test]
fn transaction_manager_matches_by_id_only() {
    let mut tm = TransactionManager::new(1000);
    let id = tm.send(0x03, 0).unwrap();
    assert_eq!(id, 0);
    assert_eq!(tm.on_response(1), Err(ModbusError::UnsolicitedResponse));
    assert_eq!(tm.on_response(0), Ok(0x03));
    // idle again: a response with no outstanding record is unsolicited
    assert_eq!(tm.on_response(0), Err(ModbusError::UnsolicitedResponse));
}

#[test]
fn transaction_id_wraps_without_reuse() {
    let mut tm = TransactionManager::new(1000);
    for expected in 0..3u16 {
        let id = tm.send(0x03, 0).unwrap();
        assert_eq!(id, expected);
        tm.on_response(id).unwrap();
    }
}

#[test]
fn timeout_fails_pending_call_and_frees_session() {
    let mut client = ModbusClient::new(255, 50);
    client.read_holding_register(0x0000, 1, 0).unwrap();
    // within the timeout nothing happens
    assert_eq!(client.check_timeout(49), Ok(()));
    // past it the pending call fails with a distinguishable error
    assert_eq!(client.check_timeout(60), Err(ModbusError::RequestTimedOut));
    // and a subsequent request on the same session succeeds once answered;
    // the retry carries a fresh transaction id
    let tx = client.read_holding_register(0x0000, 1, 70).unwrap();
    assert_eq!(u16::from_be_bytes([tx[0], tx[1]]), 1);
    let reply = [0x00, 0x01, 0x00, 0x00, 0x00, 0x05, 0xFF, 0x03, 0x02, 0x12, 0x34];
    let data = unwrap_values(client.on_response(&reply).unwrap());
    assert_eq!(data, vec![0x1234]);
}

#[test]
fn client_server_exchange() {
    let mut client = ModbusClient::new(0xFF, 1000);
    let tx = client.read_holding_register(0x0000, 1, 0).unwrap();
    let store = RegisterStore::new(vec![0x1234]);
    let reply = handle_frame(&tx, &store).unwrap();
    let data = unwrap_values(client.on_response(&reply).unwrap());
    assert_eq!(data, vec![0x1234]);
}

#[test]
fn server_echoes_transaction_id() {
    let mut client = ModbusClient::new(0xFF, 1000);
    // burn id 0 so the next request carries id 1
    client.read_holding_register(0x0000, 1, 0).unwrap();
    client.check_timeout(2000).unwrap_err();
    let tx = client.read_holding_register(0x0000, 2, 0).unwrap();
    let store = RegisterStore::new(vec![0x1234, 0x5678]);
    let reply = handle_frame(&tx, &store).unwrap();
    assert_eq!(u16::from_be_bytes([reply[0], reply[1]]), 1);
    let data = unwrap_values(client.on_response(&reply).unwrap());
    assert_eq!(data, vec![0x1234, 0x5678]);
}

#[test]
fn server_answers_unknown_function_code_with_exception() {
    // function code 0x06 with a well-formed frame
    let rx = [0x00, 0x01, 0x00, 0x00, 0x00, 0x06, 0xFF, 0x06, 0x00, 0x00, 0x00, 0x01];
    let store = RegisterStore::new(vec![0x1234]);
    let reply = handle_frame(&rx, &store).unwrap();
    assert_eq!(
        reply,
        vec![0x00, 0x01, 0x00, 0x00, 0x00, 0x03, 0xFF, 0x86, 0x01]
    );
}

#[test]
fn server_answers_bad_quantity_with_exception() {
    let mut rx = Vec::new();
    let req = ReadHoldingRegistersRequest::new(0x0000, 126);
    encode_req(
        &mut rx,
        3,
        0xFF,
        &ModbusRequest::ReadHoldingRegistersRequest(req),
    );
    let store = RegisterStore::new(vec![0x1234]);
    let reply = handle_frame(&rx, &store).unwrap();
    assert_eq!(
        reply,
        vec![0x00, 0x03, 0x00, 0x00, 0x00, 0x03, 0xFF, 0x83, 0x03]
    );
}

#[test]
fn server_answers_bad_address_with_exception() {
    let mut rx = Vec::new();
    let req = ReadHoldingRegistersRequest::new(0xFFFF, 2);
    encode_req(
        &mut rx,
        4,
        0xFF,
        &ModbusRequest::ReadHoldingRegistersRequest(req),
    );
    let store = RegisterStore::new(vec![0x1234, 0x5678]);
    let reply = handle_frame(&rx, &store).unwrap();
    assert_eq!(
        reply,
        vec![0x00, 0x04, 0x00, 0x00, 0x00, 0x03, 0xFF, 0x83, 0x02]
    );
}

#[test]
fn server_closes_on_framing_failure() {
    let store = RegisterStore::new(vec![0x1234]);
    assert_eq!(
        handle_frame(&[0x00, 0x01, 0x00], &store),
        Err(ModbusError::TruncatedFrame)
    );
}

#[test]
fn gen_write_buf_exact_bytes() {
    let resp = ModbusResponse::ReadHoldingRegisterResponse(ReadHoldingRegisterResponse::new(vec![
        0x1234,
    ]));
    assert_eq!(
        gen_write_buf(0x0102, 0xFF, &resp),
        vec![0x01, 0x02, 0x00, 0x00, 0x00, 0x05, 0xFF, 0x03, 0x02, 0x12, 0x34]
    );
    let exc = ModbusResponse::Exception(ErrorResponse::new(0x86, 0x01));
    assert_eq!(
        gen_write_buf(0x0007, 0xFF, &exc),
        vec![0x00, 0x07, 0x00, 0x00, 0x00, 0x03, 0xFF, 0x86, 0x01]
    );
}

#[test]
fn encode_req_appends_frame() {
    let mut buf = vec![0xAA];
    let req = ReadHoldingRegistersRequest::new(0x1234, 2);
    encode_req(
        &mut buf,
        0x0005,
        0x11,
        &ModbusRequest::ReadHoldingRegistersRequest(req),
    );
    assert_eq!(
        buf,
        vec![0xAA, 0x00, 0x05, 0x00, 0x00, 0x00, 0x06, 0x11, 0x03, 0x12, 0x34, 0x00, 0x02]
    );
}
