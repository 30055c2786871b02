use netscope_scan::report::{ports_per_host, HostAddr, HostPorts};

const A: HostAddr = HostAddr::V4(0xC0A8_0105);
const B: HostAddr = HostAddr::V4(0xC0A8_010A);
const C: HostAddr = HostAddr::V6(1);

#[test]
fn only_hosts_with_open_ports_are_reported() {
    let ips = vec![A, B, C];
    let open = vec![(A, 22), (C, 443), (A, 80)];
    let report = ports_per_host(&ips, &open);
    assert_eq!(
        report,
        vec![
            HostPorts { ip: A, ports: vec![22, 80] },
            HostPorts { ip: C, ports: vec![443] },
        ]
    );
}

#[test]
fn hosts_keep_the_scanned_order_and_ports_the_found_order() {
    let ips = vec![C, B, A];
    let open = vec![(A, 443), (B, 8080), (A, 22), (B, 1)];
    let report = ports_per_host(&ips, &open);
    assert_eq!(
        report,
        vec![
            HostPorts { ip: B, ports: vec![8080, 1] },
            HostPorts { ip: A, ports: vec![443, 22] },
        ]
    );
}

#[test]
fn nothing_open_reports_nothing() {
    assert!(ports_per_host(&vec![A, B], &vec![]).is_empty());
    assert!(ports_per_host(&vec![], &vec![(A, 1)]).is_empty());
}

#[test]
fn v4_and_v6_addresses_are_different_hosts() {
    let ips = vec![HostAddr::V4(1), HostAddr::V6(1)];
    let open = vec![(HostAddr::V6(1), 53)];
    let report = ports_per_host(&ips, &open);
    assert_eq!(report, vec![HostPorts { ip: HostAddr::V6(1), ports: vec![53] }]);
}

#[test]
fn a_host_scanned_twice_is_reported_twice() {
    let ips = vec![A, A];
    let open = vec![(A, 22)];
    let report = ports_per_host(&ips, &open);
    assert_eq!(
        report,
        vec![HostPorts { ip: A, ports: vec![22] }, HostPorts { ip: A, ports: vec![22] }]
    );
}
