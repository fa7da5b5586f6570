use bluetooth::addr::BtAddr;
use bluetooth::socket::{
    open_outcome, os_result, BluetoothProtocol, OpenError, OsError, SockAddrRc, AF_BLUETOOTH,
    BTPROTO_RFCOMM, RFCOMM_CHANNEL,
};

#[test]
fn protocol_numbers() {
    assert_eq!(BluetoothProtocol::l2cap.number(), 0);
    assert_eq!(BluetoothProtocol::hci.number(), 1);
    assert_eq!(BluetoothProtocol::sco.number(), 2);
    assert_eq!(BluetoothProtocol::rfcomm.number(), 3);
    assert_eq!(BluetoothProtocol::bnep.number(), 4);
    assert_eq!(BluetoothProtocol::cmtp.number(), 5);
    assert_eq!(BluetoothProtocol::hidp.number(), 6);
    assert_eq!(BluetoothProtocol::avdtp.number(), 7);
}

#[test]
fn only_rfcomm_can_be_opened() {
    assert_eq!(BluetoothProtocol::rfcomm.open_protocol(), Ok(BTPROTO_RFCOMM));
    assert_eq!(BluetoothProtocol::l2cap.open_protocol(), Err(OpenError::NotImplemented));
    assert_eq!(BluetoothProtocol::avdtp.open_protocol(), Err(OpenError::NotImplemented));
}

#[test]
fn open_outcome_of_each_case() {
    assert_eq!(open_outcome(BluetoothProtocol::rfcomm, 5, 0), Ok(5));
    assert_eq!(open_outcome(BluetoothProtocol::rfcomm, 0, 0), Ok(0));
    assert_eq!(
        open_outcome(BluetoothProtocol::rfcomm, -1, 97),
        Err(OpenError::Os(OsError { code: 97 }))
    );
    assert_eq!(open_outcome(BluetoothProtocol::sco, 5, 0), Err(OpenError::NotImplemented));
}

#[test]
fn os_result_keeps_value_or_code() {
    assert_eq!(os_result(0, 111), Ok(0));
    assert_eq!(os_result(-1, 111), Err(OsError { code: 111 }));
}

#[test]
fn connect_record_fields() {
    let a = BtAddr([1, 2, 3, 4, 5, 6]);
    let r = SockAddrRc::new(&a);
    assert_eq!(r.rc_family, 31);
    assert_eq!(r.rc_family as i32, AF_BLUETOOTH);
    assert_eq!(r.rc_bdaddr, a);
    assert_eq!(r.rc_channel, RFCOMM_CHANNEL);
    assert_eq!(r.rc_channel, 0);
}

#[test]
fn connect_record_is_packed() {
    let a = BtAddr([0xa1, 0xb2, 0xc3, 0xd4, 0xe5, 0xf6]);
    let bytes = SockAddrRc::new(&a).to_bytes();
    assert_eq!(bytes.len(), 9);
    assert_eq!(bytes[0..2], 31u16.to_ne_bytes());
    assert_eq!(bytes[2..8], [0xa1, 0xb2, 0xc3, 0xd4, 0xe5, 0xf6]);
    assert_eq!(bytes[8], 0);
}
