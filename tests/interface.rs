use tuntap::abi::{DEFAULT_PREFIX_LEN, IFF_RUNNING, IFF_TAP, IFF_TUN, IFF_UP};
use tuntap::name::{is_terminated, name_buffer, name_bytes};
use tuntap::{check_read_buffer, Action, Creation, Reply, TunTap, TunTapError, TunTapType};
use tuntap::{IFNAMSIZ, MTU_SIZE};

fn kernel_name(s: &[u8]) -> [u8; 16] {
    let mut b = [0u8; 16];
    b[..s.len()].copy_from_slice(s);
    b
}

/// Drives a creation with a host that succeeds at every step, echoes the
/// requested name unless `assigned` is given, and reports index `index`.
fn run_ok(mut c: Creation, assigned: Option<&[u8]>, index: i32) -> TunTap {
    loop {
        let reply = match c.action() {
            Action::OpenDevice | Action::OpenSocket => Reply::Done,
            Action::Attach(req) => match assigned {
                Some(n) => Reply::Attached(kernel_name(n)),
                None => Reply::Attached(req.name),
            },
            Action::ResolveIndex(_) => Reply::Index(index),
            Action::CloseSocket | Action::CloseDevice => panic!("nothing should be closed"),
            Action::Finish => break,
        };
        assert!(c.accepts(&reply));
        c.advance(reply);
    }
    c.finish().unwrap()
}

/// Drives a creation where the step matching `fails` reports error code `code`;
/// returns the actions performed and the outcome.
fn run_failing(mut c: Creation, fails: &str, code: i32) -> (Vec<String>, Result<TunTap, TunTapError>) {
    let mut seen = Vec::new();
    loop {
        let a = c.action();
        let (label, ok) = match a {
            Action::OpenDevice => ("open_device", Reply::Done),
            Action::Attach(req) => ("attach", Reply::Attached(req.name)),
            Action::OpenSocket => ("open_socket", Reply::Done),
            Action::ResolveIndex(_) => ("resolve", Reply::Index(3)),
            Action::CloseSocket => ("close_socket", Reply::Done),
            Action::CloseDevice => ("close_device", Reply::Done),
            Action::Finish => break,
        };
        seen.push(label.to_string());
        let reply = if label == fails { Reply::Failed(code) } else { ok };
        c.advance(reply);
    }
    (seen, c.finish())
}

fn created(kind: TunTapType, name: &[u8], index: i32) -> TunTap {
    run_ok(TunTap::create_named(kind, name).unwrap(), None, index)
}

#[test]
fn name_buffer_pads_with_zeros() {
    let b = name_buffer(b"tun0").unwrap();
    assert_eq!(&b[..4], b"tun0");
    assert!(b[4..].iter().all(|&x| x == 0));
    assert_eq!(b.len(), IFNAMSIZ);
}

#[test]
fn name_buffer_limits() {
    assert!(name_buffer(b"").is_some());
    assert!(name_buffer(&[b'a'; 15]).is_some());
    assert!(name_buffer(&[b'a'; 16]).is_none());
    assert!(name_buffer(&[b'a'; 40]).is_none());
}

#[test]
fn name_bytes_stops_at_first_zero() {
    let mut b = kernel_name(b"tap12");
    b[7] = b'x';
    assert_eq!(name_bytes(&b), b"tap12".to_vec());
    assert_eq!(name_bytes(&[0u8; 16]), Vec::<u8>::new());
    let mut full = [b'q'; 16];
    full[15] = 0;
    assert_eq!(name_bytes(&full), vec![b'q'; 15]);
}

#[test]
fn terminated_buffers() {
    assert!(is_terminated(&kernel_name(b"tun0")));
    let mut last = [b'z'; 16];
    assert!(!is_terminated(&last));
    last[15] = 0;
    assert!(is_terminated(&last));
}

#[test]
fn named_creation_keeps_the_name() {
    for name in [&b"t"[..], b"mytun", b"abcdefghijklmno"] {
        let t = created(TunTapType::Tun, name, 4);
        assert_eq!(t.get_name(), name.to_vec());
        assert_eq!(t.kind(), TunTapType::Tun);
        assert_eq!(t.index(), 4);
    }
}

#[test]
fn too_long_name_is_refused_before_opening() {
    let r = TunTap::create_named(TunTapType::Tap, &[b'n'; 16]);
    assert!(matches!(r, Err(TunTapError::NameTooLong)));
    let r = TunTap::create_named(TunTapType::Tun, b"averyveryverylongname");
    assert!(matches!(r, Err(TunTapError::NameTooLong)));
}

#[test]
fn creation_starts_by_opening_the_device() {
    let c = TunTap::create(TunTapType::Tun);
    assert!(matches!(c.action(), Action::OpenDevice));
    assert!(!c.is_finished());
    assert!(c.accepts(&Reply::Done));
    assert!(c.accepts(&Reply::Failed(1)));
    assert!(!c.accepts(&Reply::Index(1)));
}

#[test]
fn attach_request_carries_kind_and_name() {
    for (kind, flag) in [(TunTapType::Tun, IFF_TUN), (TunTapType::Tap, IFF_TAP)] {
        let mut c = TunTap::create_named(kind, b"dev5").unwrap();
        c.advance(Reply::Done);
        match c.action() {
            Action::Attach(req) => {
                assert_eq!(req.flags, flag);
                assert_eq!(req.name, kernel_name(b"dev5"));
            }
            other => panic!("unexpected action {:?}", other),
        }
        assert!(!c.accepts(&Reply::Done));
    }
}

#[test]
fn index_lookup_uses_kernel_name() {
    let mut c = TunTap::create(TunTapType::Tap);
    c.advance(Reply::Done);
    c.advance(Reply::Attached(kernel_name(b"tap3")));
    assert!(matches!(c.action(), Action::OpenSocket));
    c.advance(Reply::Done);
    match c.action() {
        Action::ResolveIndex(req) => {
            assert_eq!(req.name, kernel_name(b"tap3"));
            assert_eq!(req.index, -1);
        }
        other => panic!("unexpected action {:?}", other),
    }
}

#[test]
fn device_open_failure_closes_nothing() {
    let (seen, r) = run_failing(TunTap::create(TunTapType::Tun), "open_device", 2);
    assert_eq!(seen, vec!["open_device"]);
    assert!(matches!(r, Err(TunTapError::DeviceOpenFailed(2))));
}

#[test]
fn attach_failure_closes_device_once() {
    let (seen, r) = run_failing(TunTap::create(TunTapType::Tap), "attach", 1);
    assert_eq!(seen, vec!["open_device", "attach", "close_device"]);
    assert!(matches!(r, Err(TunTapError::AttachFailed(1))));
}

#[test]
fn socket_failure_closes_device_once() {
    let (seen, r) = run_failing(TunTap::create(TunTapType::Tun), "open_socket", 24);
    assert_eq!(seen, vec!["open_device", "attach", "open_socket", "close_device"]);
    assert!(matches!(r, Err(TunTapError::SocketCreateFailed(24))));
}

#[test]
fn index_failure_closes_both_once() {
    let (seen, r) = run_failing(TunTap::create(TunTapType::Tap), "resolve", 19);
    assert_eq!(
        seen,
        vec!["open_device", "attach", "open_socket", "resolve", "close_socket", "close_device"]
    );
    assert!(matches!(r, Err(TunTapError::IndexResolveFailed(19))));
}

#[test]
fn failed_close_still_counts_as_closed() {
    let (seen, r) = run_failing(TunTap::create(TunTapType::Tap), "close_socket", 9);
    assert_eq!(seen.len(), 4);
    assert!(r.is_ok());
    let mut c = TunTap::create(TunTapType::Tun);
    c.advance(Reply::Done);
    c.advance(Reply::Attached(kernel_name(b"tun1")));
    c.advance(Reply::Done);
    c.advance(Reply::Failed(5));
    assert!(matches!(c.action(), Action::CloseSocket));
    c.advance(Reply::Failed(9));
    assert!(matches!(c.action(), Action::CloseDevice));
    c.advance(Reply::Failed(9));
    assert!(c.is_finished());
    assert!(matches!(c.finish(), Err(TunTapError::IndexResolveFailed(5))));
}

#[test]
fn unterminated_kernel_name_is_refused() {
    let mut c = TunTap::create(TunTapType::Tun);
    c.advance(Reply::Done);
    c.advance(Reply::Attached([b'x'; 16]));
    assert!(matches!(c.action(), Action::CloseDevice));
    c.advance(Reply::Done);
    assert!(matches!(c.action(), Action::Finish));
    assert!(matches!(c.finish(), Err(TunTapError::NameNotTerminated)));
}

#[test]
fn finished_creation_accepts_nothing() {
    let (_, r) = run_failing(TunTap::create(TunTapType::Tun), "open_device", 2);
    assert!(r.is_err());
    let mut c = TunTap::create(TunTapType::Tun);
    c.advance(Reply::Failed(13));
    assert!(c.is_finished());
    assert!(!c.accepts(&Reply::Done));
    assert!(!c.accepts(&Reply::Failed(1)));
}

#[test]
fn up_sets_both_bits_when_down() {
    let t = created(TunTapType::Tun, b"tun0", 1);
    let q = t.flags_query();
    assert_eq!(q.flags, 0);
    assert_eq!(q.name, kernel_name(b"tun0"));
    let set = t.up(0x1000).unwrap();
    assert_eq!(set.flags, 0x1000 | 0x41);
    assert_eq!(set.name, kernel_name(b"tun0"));
}

#[test]
fn up_with_one_bit_set_still_writes() {
    let t = created(TunTapType::Tun, b"tun0", 1);
    assert_eq!(t.up(IFF_UP).unwrap().flags, IFF_UP | IFF_RUNNING);
    assert_eq!(t.up(IFF_RUNNING).unwrap().flags, IFF_UP | IFF_RUNNING);
}

#[test]
fn up_twice_writes_once() {
    let t = created(TunTapType::Tap, b"tap0", 1);
    let first = t.up(0x1002).unwrap();
    assert!(t.up(first.flags).is_none());
    assert!(t.up(0x41).is_none());
    assert!(t.up(-1).is_none());
}

#[test]
fn up_bits_do_not_overlap() {
    // Testing the flags against `IFF_UP & IFF_RUNNING` would test against no bit
    // at all, so that grouping never finds an interface up; each bit is tested
    // on its own instead.
    assert_eq!(IFF_UP & IFF_RUNNING, 0);
    let t = created(TunTapType::Tun, b"tun0", 1);
    assert!(t.up(IFF_UP | IFF_RUNNING).is_none());
}

#[test]
fn address_of_sixteen_bytes_is_packed() {
    let t = created(TunTapType::Tap, b"tap0", 9);
    let mut ip = [0u8; 16];
    ip[15] = 1;
    let q = t.add_address(&ip).unwrap();
    assert_eq!(q.words, [0, 0, 0, 0, 0, 0, 0, 1]);
    assert_eq!(q.prefix_len, DEFAULT_PREFIX_LEN);
    assert_eq!(q.prefix_len, 8);
    assert_eq!(q.index, 9);
    let ip = [
        0x20, 0x01, 0x0d, 0xb8, 0x00, 0x00, 0x00, 0x00, 0x00, 0x00, 0x00, 0x00, 0xab, 0xcd, 0xff,
        0x01,
    ];
    let q = t.add_address(&ip).unwrap();
    assert_eq!(q.words, [0x2001, 0x0db8, 0, 0, 0, 0, 0xabcd, 0xff01]);
}

#[test]
fn address_of_four_bytes_is_unsupported() {
    let t = created(TunTapType::Tun, b"tun0", 2);
    assert!(matches!(t.add_address(&[10, 0, 0, 1]), Err(TunTapError::UnsupportedAddressFamily)));
}

#[test]
fn address_of_other_length_is_invalid() {
    let t = created(TunTapType::Tun, b"tun0", 2);
    for len in [0usize, 1, 5, 15, 17, 32] {
        let ip = vec![1u8; len];
        assert!(matches!(t.add_address(&ip), Err(TunTapError::InvalidAddressLength)));
    }
}

#[test]
fn read_buffer_must_hold_a_frame() {
    assert_eq!(MTU_SIZE, 1500);
    assert!(matches!(check_read_buffer(1499), Err(TunTapError::BufferTooSmall)));
    assert!(matches!(check_read_buffer(0), Err(TunTapError::BufferTooSmall)));
    assert!(check_read_buffer(1500).is_ok());
    assert!(check_read_buffer(65536).is_ok());
}

#[test]
fn tap_with_kernel_chosen_name() {
    let c = TunTap::create(TunTapType::Tap);
    let t = run_ok(c, Some(b"tap0"), 5);
    assert_eq!(t.get_name(), b"tap0".to_vec());
    assert_eq!(t.kind(), TunTapType::Tap);
    let set = t.up(0).unwrap();
    assert!(t.up(set.flags).is_none());
    let mut ip = [0u8; 16];
    ip[15] = 1;
    let q = t.add_address(&ip).unwrap();
    assert_eq!(q.words[7], 1);
    assert_eq!(q.index, 5);
    assert!(check_read_buffer(1500).is_ok());
}
