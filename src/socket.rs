use vstd::prelude::*;

use crate::addr::BtAddr;

verus! {

/// The address family number of Bluetooth sockets.
pub const AF_BLUETOOTH: i32 = 31;

pub const BTPROTO_L2CAP: i32 = 0;

pub const BTPROTO_HCI: i32 = 1;

pub const BTPROTO_SCO: i32 = 2;

pub const BTPROTO_RFCOMM: i32 = 3;

pub const BTPROTO_BNEP: i32 = 4;

pub const BTPROTO_CMTP: i32 = 5;

pub const BTPROTO_HIDP: i32 = 6;

pub const BTPROTO_AVDTP: i32 = 7;

/// The RFCOMM channel that a connect names; no other can be chosen.
pub const RFCOMM_CHANNEL: u8 = 0;

/// Length of the packed connect record: family tag, address, channel.
pub const SOCKADDR_RC_LEN: usize = 9;

/// The Bluetooth sub-protocol a socket is opened for. Only RFCOMM is
/// implemented; the others are reserved.
#[allow(non_camel_case_types)]
#[derive(Debug, Clone, Copy, PartialEq, Eq, Structural)]
pub enum BluetoothProtocol {
    l2cap,
    hci,
    sco,
    rfcomm,
    bnep,
    cmtp,
    hidp,
    avdtp,
}

/// The host's number for each sub-protocol.
pub open spec fn protocol_number(p: BluetoothProtocol) -> i32 {
    match p {
        BluetoothProtocol::l2cap => BTPROTO_L2CAP,
        BluetoothProtocol::hci => BTPROTO_HCI,
        BluetoothProtocol::sco => BTPROTO_SCO,
        BluetoothProtocol::rfcomm => BTPROTO_RFCOMM,
        BluetoothProtocol::bnep => BTPROTO_BNEP,
        BluetoothProtocol::cmtp => BTPROTO_CMTP,
        BluetoothProtocol::hidp => BTPROTO_HIDP,
        BluetoothProtocol::avdtp => BTPROTO_AVDTP,
    }
}

/// An error code of the host operating system.
#[derive(Debug, Clone, Copy, PartialEq, Eq, Structural)]
pub struct OsError {
    pub code: i32,
}

/// Why a socket could not be opened.
#[derive(Debug, Clone, Copy, PartialEq, Eq, Structural)]
pub enum OpenError {
    /// The sub-protocol is reserved and has no implementation.
    NotImplemented,
    /// The host refused to create the socket.
    Os(OsError),
}

impl BluetoothProtocol {
    /// The host's number for this sub-protocol.
    pub fn number(&self) -> (r: i32)
        ensures
            r == protocol_number(*self),
    {
        match self {
            BluetoothProtocol::l2cap => BTPROTO_L2CAP,
            BluetoothProtocol::hci => BTPROTO_HCI,
            BluetoothProtocol::sco => BTPROTO_SCO,
            BluetoothProtocol::rfcomm => BTPROTO_RFCOMM,
            BluetoothProtocol::bnep => BTPROTO_BNEP,
            BluetoothProtocol::cmtp => BTPROTO_CMTP,
            BluetoothProtocol::hidp => BTPROTO_HIDP,
            BluetoothProtocol::avdtp => BTPROTO_AVDTP,
        }
    }

    /// The protocol number to open a socket with, or `NotImplemented` for a
    /// reserved sub-protocol.
    pub fn open_protocol(&self) -> (r: Result<i32, OpenError>)
        ensures
            *self == BluetoothProtocol::rfcomm ==> r == Ok::<i32, OpenError>(BTPROTO_RFCOMM),
            *self != BluetoothProtocol::rfcomm ==> r == Err::<i32, OpenError>(
                OpenError::NotImplemented,
            ),
    {
        match self {
            BluetoothProtocol::rfcomm => Ok(self.number()),
            _ => Err(OpenError::NotImplemented),
        }
    }
}

/// The result of a host call that returns a negative value on failure and
/// leaves its error code in `errno`: the value itself, or that code.
pub fn os_result(ret: i32, errno: i32) -> (r: Result<i32, OsError>)
    ensures
        ret >= 0 ==> r == Ok::<i32, OsError>(ret),
        ret < 0 ==> r == Err::<i32, OsError>(OsError { code: errno }),
{
    if ret < 0 {
        Err(OsError { code: errno })
    } else {
        Ok(ret)
    }
}

/// What opening a socket for `proto` gives, once the host's `socket` call
/// has returned `ret` with error code `errno`: the new handle, or the error.
pub fn open_outcome(proto: BluetoothProtocol, ret: i32, errno: i32) -> (r: Result<i32, OpenError>)
    ensures
        proto != BluetoothProtocol::rfcomm ==> r == Err::<i32, OpenError>(
            OpenError::NotImplemented,
        ),
        proto == BluetoothProtocol::rfcomm && ret >= 0 ==> r == Ok::<i32, OpenError>(ret),
        proto == BluetoothProtocol::rfcomm && ret < 0 ==> r == Err::<i32, OpenError>(
            OpenError::Os(OsError { code: errno }),
        ),
{
    match proto.open_protocol() {
        Err(e) => Err(e),
        Ok(_) => match os_result(ret, errno) {
            Ok(fd) => Ok(fd),
            Err(e) => Err(OpenError::Os(e)),
        },
    }
}

/// The two bytes of `x`, least significant first.
pub open spec fn le_bytes(x: u16) -> Seq<u8> {
    seq![(x % 256) as u8, (x / 256) as u8]
}

/// The two bytes of `x`, most significant first.
pub open spec fn be_bytes(x: u16) -> Seq<u8> {
    seq![(x / 256) as u8, (x % 256) as u8]
}

/// Relies on u16::to_ne_bytes: the two bytes of `x` in the machine's byte
/// order, which is either little- or big-endian.
#[verifier::external_body]
fn native_bytes(x: u16) -> (r: [u8; 2])
    ensures
        r@ == le_bytes(x) || r@ == be_bytes(x),
{
    x.to_ne_bytes()
}

/// The address record of an RFCOMM connect: family tag, device address and
/// channel.
#[derive(Debug, Clone, Copy)]
pub struct SockAddrRc {
    pub rc_family: u16,
    pub rc_bdaddr: BtAddr,
    pub rc_channel: u8,
}

/// The packed record with the family tag in the byte order `family`.
pub open spec fn packed_record(family: Seq<u8>, addr: Seq<u8>, channel: u8) -> Seq<u8> {
    family + addr + seq![channel]
}

impl SockAddrRc {
    /// The record that connects to `addr`, on the fixed channel.
    pub fn new(addr: &BtAddr) -> (r: SockAddrRc)
        ensures
            r.rc_family == AF_BLUETOOTH as u16,
            r.rc_bdaddr@ == addr@,
            r.rc_channel == RFCOMM_CHANNEL,
    {
        SockAddrRc { rc_family: AF_BLUETOOTH as u16, rc_bdaddr: *addr, rc_channel: RFCOMM_CHANNEL }
    }

    /// The record as the host's connect call reads it: the fields in order,
    /// with no padding between them, the family tag in the machine's byte
    /// order.
    pub fn to_bytes(&self) -> (r: Vec<u8>)
        ensures
            r@.len() == SOCKADDR_RC_LEN,
            r@ == packed_record(le_bytes(self.rc_family), self.rc_bdaddr@, self.rc_channel)
                || r@ == packed_record(be_bytes(self.rc_family), self.rc_bdaddr@, self.rc_channel),
    {
        let fam = native_bytes(self.rc_family);
        let mut v: Vec<u8> = Vec::new();
        v.push(fam[0]);
        v.push(fam[1]);
        let mut i: usize = 0;
        while i < 6
            invariant
                i <= 6,
                self.rc_bdaddr@.len() == 6,
                v@ == fam@ + self.rc_bdaddr@.take(i as int),
            decreases 6 - i,
        {
            v.push(self.rc_bdaddr.0[i]);
            i += 1;
            assert(v@ =~= fam@ + self.rc_bdaddr@.take(i as int));
        }
        v.push(self.rc_channel);
        assert(self.rc_bdaddr@.take(6) =~= self.rc_bdaddr@);
        assert(v@ =~= packed_record(fam@, self.rc_bdaddr@, self.rc_channel));
        v
    }
}

} // verus!
