use svault::error::VaultError;
use svault::fdpass::{
    accept_request, recv_request_with_fds, send_on, send_request_with_fds, Ancillary, Control,
    Framed, Layout, Received, Sending, Visit,
};
use svault::json::Json;
use svault::transfer::{advance, Moved, Progress};
use svault::wire::Request;

fn layout() -> Layout {
    Layout { header: 16, prefix: 16, slot: 4, level: 1, kind: 1 }
}

fn data(bytes: &[u8]) -> Received {
    Received::Data {
        bytes: bytes.to_vec(),
        truncated: false,
        control_truncated: false,
        ancillary: None,
    }
}

#[test]
fn a_line_ends_a_request() {
    let mut acc = Vec::new();
    assert_eq!(recv_request_with_fds(&mut acc, data(b"{\"v\""), 100), Framed::More);
    assert_eq!(recv_request_with_fds(&mut acc, Received::Interrupted, 100), Framed::More);
    assert_eq!(recv_request_with_fds(&mut acc, data(b":1}\n"), 100), Framed::Line(7));
    assert_eq!(&acc[..7], b"{\"v\":1}");
}

#[test]
fn bad_receptions_are_refused() {
    let refused = |acc: &[u8], got: Received, max: usize| {
        let mut acc = acc.to_vec();
        matches!(recv_request_with_fds(&mut acc, got, max), Framed::Refused(_))
    };
    assert!(refused(b"", data(b""), 100));
    assert!(refused(b"", data(b"aaaa"), 3));
    assert!(refused(b"", data(b"a\nb"), 100));
    assert!(refused(b"", Received::Failed(VaultError::Busy), 100));
    let cut = Received::Data {
        bytes: b"a\n".to_vec(),
        truncated: true,
        control_truncated: false,
        ancillary: None,
    };
    assert!(refused(b"", cut, 100));
    let cut = Received::Data {
        bytes: b"a\n".to_vec(),
        truncated: false,
        control_truncated: true,
        ancillary: None,
    };
    assert!(refused(b"", cut, 100));
}

fn request(v: u64) -> Request {
    Request { v, id: "q".to_string(), op: "o".to_string(), auth: None, params: Json::object() }
}

#[test]
fn requests_have_a_version() {
    assert!(accept_request(Some(request(1)), 1).is_ok());
    assert_eq!(accept_request(Some(request(2)), 1).err().unwrap().code(), "E_PROTOCOL");
    assert_eq!(accept_request(None, 1).err().unwrap().code(), "E_PROTOCOL");
}

#[test]
fn descriptors_are_read_within_what_was_delivered() {
    let l = layout();
    let mut a = Ancillary::new(0);
    assert!(a.reach(0, 24, &l));
    let m = Control { offset: 0, len: 24, level: 1, kind: 1 };
    assert_eq!(a.visit(&m, 24, &l), Visit::Read(2));
    assert_eq!(a.own(&m, &[7, 8], 24, false, &l), [7, 8]);
    assert!(a.into_error().is_none());

    let mut a = Ancillary::new(0);
    let foreign = Control { offset: 0, len: 24, level: 1, kind: 2 };
    assert_eq!(a.visit(&foreign, 24, &l), Visit::Skip);
    assert!(a.into_error().is_some());

    let mut a = Ancillary::new(0);
    assert!(!a.reach(20, 24, &l));
}

#[test]
fn descriptors_go_with_the_first_byte() {
    assert!(matches!(send_request_with_fds(10, 3, 100), Sending::WithDescriptors));
    assert!(matches!(send_request_with_fds(101, 3, 100), Sending::WithDescriptors));
    assert!(matches!(send_request_with_fds(102, 3, 100), Sending::Refused(VaultError::TooLarge)));
    assert!(matches!(send_request_with_fds(10, 0, 100), Sending::Plain { from: 0 }));
    assert!(matches!(send_on(4, 10, 3, Moved::Bytes(6)), Sending::Sent));
    assert!(matches!(
        send_on(0, 10, 3, Moved::Bytes(4)),
        Sending::Plain { from: 4 }
    ));
    assert!(matches!(send_on(0, 10, 3, Moved::Interrupted), Sending::WithDescriptors));
    assert!(matches!(send_on(4, 10, 3, Moved::Interrupted), Sending::Plain { from: 4 }));
}

#[test]
fn transfers_end_when_all_is_moved() {
    assert!(matches!(advance(0, 10, Moved::Bytes(4), "zero"), Progress::Go { from: 4 }));
    assert!(matches!(advance(4, 10, Moved::Interrupted, "zero"), Progress::Go { from: 4 }));
    assert!(matches!(advance(4, 10, Moved::Bytes(6), "zero"), Progress::Done));
    assert!(matches!(advance(4, 10, Moved::Bytes(0), "zero"), Progress::Failed(_)));
    assert!(matches!(
        advance(4, 10, Moved::Failed(VaultError::Busy), "zero"),
        Progress::Failed(VaultError::Busy)
    ));
}
