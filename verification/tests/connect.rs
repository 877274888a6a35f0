use netscan::addr::{IpAddr, SocketAddr};
use netscan::connect::{next_connect_step, ConnectCursor, ConnectStep};
use netscan::host::HostTarget;
use netscan::setting::{ScanSetting, ScanType, CONNECT_TIMEOUT_MILLIS};
use netscan::time::Duration;

fn connect_setting(targets: Vec<HostTarget>, timeout_millis: u64) -> ScanSetting {
    let mut setting = ScanSetting::new();
    setting.scan_type = ScanType::TcpConnectScan;
    setting.timeout = Duration::from_millis(timeout_millis);
    setting.targets = targets;
    setting
}

#[test]
fn attempts_come_target_by_target_and_port_by_port() {
    let a = IpAddr::v4(10, 0, 0, 5);
    let b = IpAddr::V6(6);
    let setting = connect_setting(
        vec![
            HostTarget::new(a, vec![22, 80, 81]),
            HostTarget::new(IpAddr::v4(10, 0, 0, 9), vec![]),
            HostTarget::new(b, vec![443]),
        ],
        1000,
    );
    let soon = Duration::from_millis(1);
    let mut cursor = ConnectCursor::new();
    let first = next_connect_step(&setting, &mut cursor, &soon, 2);
    assert_eq!(first, ConnectStep::Connect(vec![SocketAddr::new(a, 22), SocketAddr::new(a, 80)]));
    assert_eq!(cursor, ConnectCursor { target: 0, port: 2 });
    let second = next_connect_step(&setting, &mut cursor, &soon, 2);
    assert_eq!(second, ConnectStep::Connect(vec![SocketAddr::new(a, 81)]));
    assert_eq!(cursor, ConnectCursor { target: 0, port: 3 });
    let third = next_connect_step(&setting, &mut cursor, &soon, 2);
    assert_eq!(third, ConnectStep::Connect(vec![SocketAddr::new(b, 443)]));
    assert_eq!(cursor, ConnectCursor { target: 2, port: 1 });
    let last = next_connect_step(&setting, &mut cursor, &soon, 2);
    assert_eq!(last, ConnectStep::Finished);
    assert_eq!(cursor, ConnectCursor { target: 3, port: 0 });
    assert_eq!(next_connect_step(&setting, &mut cursor, &soon, 2), ConnectStep::Finished);
}

#[test]
fn batch_of_zero_takes_the_whole_target() {
    let a = IpAddr::v4(10, 0, 0, 5);
    let setting = connect_setting(vec![HostTarget::new(a, vec![1, 2, 3, 4])], 1000);
    let mut cursor = ConnectCursor::new();
    let step = next_connect_step(&setting, &mut cursor, &Duration::from_millis(0), 0);
    assert_eq!(
        step,
        ConnectStep::Connect(vec![
            SocketAddr::new(a, 1),
            SocketAddr::new(a, 2),
            SocketAddr::new(a, 3),
            SocketAddr::new(a, 4),
        ])
    );
    assert_eq!(cursor, ConnectCursor { target: 0, port: 4 });
}

#[test]
fn connect_scan_is_cut_off_when_the_timeout_has_passed() {
    let a = IpAddr::v4(10, 0, 0, 5);
    let setting = connect_setting(vec![HostTarget::new_with_port_range(a, 1, 10000)], 100);
    let mut cursor = ConnectCursor::new();
    let mut attempted: Vec<SocketAddr> = Vec::new();
    let mut elapsed_millis: u64 = 0;
    let mut timed_out = false;
    loop {
        let elapsed = Duration::from_millis(elapsed_millis);
        match next_connect_step(&setting, &mut cursor, &elapsed, 100) {
            ConnectStep::Connect(sockets) => attempted.extend(sockets),
            ConnectStep::TimedOut => {
                timed_out = true;
                break;
            }
            ConnectStep::Finished => break,
        }
        elapsed_millis += 40;
    }
    assert!(timed_out);
    assert_eq!(attempted.len(), 300);
    let all = setting.targets[0].get_ports();
    for (socket, port) in attempted.iter().zip(all.iter()) {
        assert_eq!(socket.ip, a);
        assert_eq!(socket.port, *port);
    }
    assert_eq!(cursor, ConnectCursor { target: 0, port: 300 });
}

#[test]
fn timeout_is_passed_only_when_more_time_went_by() {
    let a = IpAddr::v4(10, 0, 0, 5);
    let setting = connect_setting(vec![HostTarget::new(a, vec![1])], 100);
    let mut cursor = ConnectCursor::new();
    let at_limit = next_connect_step(&setting, &mut cursor, &Duration::from_millis(100), 1);
    assert_eq!(at_limit, ConnectStep::Connect(vec![SocketAddr::new(a, 1)]));
    let mut again = ConnectCursor::new();
    let beyond = next_connect_step(&setting, &mut again, &Duration::new(0, 100_000_001), 1);
    assert_eq!(beyond, ConnectStep::TimedOut);
    assert_eq!(again, ConnectCursor::new());
    let finished = next_connect_step(&setting, &mut cursor, &Duration::from_millis(5000), 1);
    assert_eq!(finished, ConnectStep::Finished);
}

#[test]
fn connect_scan_without_targets_is_finished_at_once() {
    let setting = connect_setting(vec![], 100);
    let mut cursor = ConnectCursor::new();
    let step = next_connect_step(&setting, &mut cursor, &Duration::from_millis(1000), 8);
    assert_eq!(step, ConnectStep::Finished);
    let only_empty = connect_setting(vec![HostTarget::new(IpAddr::V4(1), vec![])], 100);
    let mut cursor = ConnectCursor::new();
    let step = next_connect_step(&only_empty, &mut cursor, &Duration::from_millis(1000), 8);
    assert_eq!(step, ConnectStep::Finished);
    assert_eq!(cursor, ConnectCursor { target: 1, port: 0 });
}

#[test]
fn cursor_beyond_the_targets_counts_as_finished() {
    let a = IpAddr::v4(10, 0, 0, 5);
    let setting = connect_setting(vec![HostTarget::new(a, vec![1, 2])], 100);
    let mut far = ConnectCursor { target: 7, port: 3 };
    assert_eq!(next_connect_step(&setting, &mut far, &Duration::from_millis(0), 1), ConnectStep::Finished);
    let mut past_ports = ConnectCursor { target: 0, port: 9 };
    assert_eq!(
        next_connect_step(&setting, &mut past_ports, &Duration::from_millis(0), 1),
        ConnectStep::Finished
    );
    assert_eq!(CONNECT_TIMEOUT_MILLIS, 200);
}

#[test]
fn other_scans_attempt_no_connection() {
    let a = IpAddr::v4(10, 0, 0, 5);
    let mut setting = connect_setting(vec![HostTarget::new(a, vec![1, 2])], 100);
    for kind in [
        ScanType::TcpSynScan,
        ScanType::IcmpPingScan,
        ScanType::TcpPingScan,
        ScanType::UdpPingScan,
    ] {
        setting.scan_type = kind;
        let mut cursor = ConnectCursor::new();
        let step = next_connect_step(&setting, &mut cursor, &Duration::from_millis(0), 4);
        assert_eq!(step, ConnectStep::Finished);
        assert_eq!(cursor, ConnectCursor::new());
    }
}

#[test]
fn a_batch_holds_no_more_than_the_caller_attempts_at_once() {
    let a = IpAddr::v4(10, 0, 0, 5);
    let b = IpAddr::v4(10, 0, 0, 6);
    let setting = connect_setting(
        vec![HostTarget::new_with_port_range(a, 1, 7), HostTarget::new(b, vec![9])],
        1000,
    );
    let mut cursor = ConnectCursor::new();
    let mut attempted: Vec<SocketAddr> = Vec::new();
    let mut sizes: Vec<usize> = Vec::new();
    loop {
        match next_connect_step(&setting, &mut cursor, &Duration::from_millis(5), 3) {
            ConnectStep::Connect(sockets) => {
                sizes.push(sockets.len());
                attempted.extend(sockets);
            }
            ConnectStep::TimedOut => panic!("the timeout has not passed"),
            ConnectStep::Finished => break,
        }
    }
    assert_eq!(sizes, vec![3, 3, 1, 1]);
    let mut all: Vec<SocketAddr> = (1..=7).map(|port| SocketAddr::new(a, port)).collect();
    all.push(SocketAddr::new(b, 9));
    assert_eq!(attempted, all);
}

#[test]
fn nothing_is_attempted_once_the_timeout_has_passed() {
    let a = IpAddr::v4(10, 0, 0, 5);
    let setting = connect_setting(vec![HostTarget::new_with_port_range(a, 1, 10)], 100);
    let mut cursor = ConnectCursor::new();
    let first = next_connect_step(&setting, &mut cursor, &Duration::from_millis(0), 4);
    assert_eq!(first, ConnectStep::Connect((1..=4).map(|port| SocketAddr::new(a, port)).collect()));
    for millis in [101, 150, 100_000] {
        let step = next_connect_step(&setting, &mut cursor, &Duration::from_millis(millis), 4);
        assert_eq!(step, ConnectStep::TimedOut);
        assert_eq!(cursor, ConnectCursor { target: 0, port: 4 });
    }
}
