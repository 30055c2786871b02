use netscope_scan::input::{Config, GivenFlags, Opts, ScanOrder};
use netscope_scan::top_ports::TOP_PORTS;
use netscope_scan::range::PortRange;

fn default_config() -> Config {
    Config {
        addresses: Some(vec!["127.0.0.1".to_owned()]),
        ports: None,
        range: None,
        batch_size: Some(25_000),
        timeout: Some(1_000),
        tries: Some(1),
        ulimit: None,
        resolver: None,
        scan_order: Some(ScanOrder::Random),
        exclude_ports: None,
        exclude_addresses: None,
        udp: Some(false),
        confirm: None,
    }
}

fn empty_config() -> Config {
    Config {
        addresses: None,
        ports: None,
        range: None,
        batch_size: None,
        timeout: None,
        tries: None,
        ulimit: None,
        resolver: None,
        scan_order: None,
        exclude_ports: None,
        exclude_addresses: None,
        udp: None,
        confirm: None,
    }
}

#[test]
fn opts_no_merge_when_config_is_ignored() {
    let mut opts = Opts::default();
    let config = default_config();

    opts.merge(&config);

    assert_eq!(opts.addresses, vec![] as Vec<String>);
    assert_eq!(opts.timeout, 0);
    assert_eq!(opts.scan_order, ScanOrder::Serial);
}

#[test]
fn opts_merge_required_arguments() {
    let mut opts = Opts::default();
    let config = default_config();

    opts.merge_required(&config);

    assert_eq!(opts.addresses, config.addresses.unwrap());
    assert_eq!(opts.timeout, config.timeout.unwrap());
    assert_eq!(opts.scan_order, config.scan_order.unwrap());
}

#[test]
fn opts_merge_optional_arguments() {
    let mut opts = Opts::default();
    let mut config = default_config();
    config.range = Some(PortRange {
        start: 1,
        end: 1_000,
    });
    config.ulimit = Some(1_000);
    config.resolver = Some("1.1.1.1".to_owned());

    opts.merge_optional(&config);

    assert_eq!(opts.range, config.range);
    assert_eq!(opts.ulimit, config.ulimit);
    assert_eq!(opts.resolver, config.resolver);
}

#[test]
fn default_opts_ignore_config_and_select_nothing() {
    let opts = Opts::default();
    assert!(opts.no_config);
    assert!(opts.addresses.is_empty());
    assert_eq!(opts.ports, None);
    assert_eq!(opts.range, None);
    assert_eq!(opts.batch_size, 0);
    assert_eq!(opts.timeout, 0);
    assert_eq!(opts.tries, 0);
    assert_eq!(opts.ulimit, None);
    assert_eq!(opts.resolver, None);
    assert_eq!(opts.scan_order, ScanOrder::Serial);
    assert!(!opts.top);
    assert!(opts.config_path.is_none());
    assert_eq!(opts.exclude_ports, None);
    assert_eq!(opts.exclude_addresses, None);
    assert!(!opts.udp);
    assert_eq!(opts.confirm, None);
    assert_eq!(opts.given, GivenFlags::default());
}

#[test]
fn merge_takes_config_values_when_not_ignored() {
    let mut opts = Opts {
        no_config: false,
        batch_size: 4500,
        timeout: 1500,
        tries: 1,
        ..Default::default()
    };
    let mut config = default_config();
    config.exclude_ports = Some(vec![135, 139, 445]);
    config.exclude_addresses = Some(vec!["10.0.0.1".to_owned()]);
    config.confirm = Some(300);
    config.range = Some(PortRange { start: 20, end: 25 });

    opts.merge(&config);

    assert_eq!(opts.addresses, vec!["127.0.0.1".to_owned()]);
    assert_eq!(opts.batch_size, 25_000);
    assert_eq!(opts.timeout, 1_000);
    assert_eq!(opts.tries, 1);
    assert_eq!(opts.scan_order, ScanOrder::Random);
    assert!(!opts.udp);
    assert_eq!(opts.exclude_ports, Some(vec![135, 139, 445]));
    assert_eq!(opts.exclude_addresses, Some(vec!["10.0.0.1".to_owned()]));
    assert_eq!(opts.confirm, Some(300));
    assert_eq!(opts.range, Some(PortRange { start: 20, end: 25 }));
    assert!(!opts.no_config);
}

#[test]
fn merge_keeps_unset_values() {
    let mut opts = Opts {
        no_config: false,
        batch_size: 4500,
        timeout: 1500,
        addresses: vec!["192.168.0.1".to_owned()],
        resolver: Some("9.9.9.9".to_owned()),
        ..Default::default()
    };
    opts.merge(&empty_config());
    assert_eq!(opts.batch_size, 4500);
    assert_eq!(opts.timeout, 1500);
    assert_eq!(opts.addresses, vec!["192.168.0.1".to_owned()]);
    assert_eq!(opts.resolver, Some("9.9.9.9".to_owned()));
}

#[test]
fn merge_takes_config_ports_only_in_top_mode() {
    let mut config = empty_config();
    config.ports = Some(vec![22, 80]);

    let mut plain = Opts { no_config: false, ports: Some(vec![443]), ..Default::default() };
    plain.merge(&config);
    assert_eq!(plain.ports, Some(vec![443]));

    let mut top = Opts::read(Opts { no_config: false, top: true, ..Default::default() });
    top.merge(&config);
    assert_eq!(top.ports, Some(vec![22, 80]));
}

#[test]
fn command_line_values_override_config_values() {
    let given = GivenFlags { timeout: true, batch_size: true, resolver: true, ..Default::default() };
    let mut opts = Opts {
        no_config: false,
        timeout: 500,
        batch_size: 100,
        resolver: Some("9.9.9.9".to_owned()),
        given,
        ..Default::default()
    };
    let mut config = default_config();
    config.timeout = Some(800);
    config.resolver = Some("1.1.1.1".to_owned());

    opts.merge(&config);

    assert_eq!(opts.timeout, 500);
    assert_eq!(opts.batch_size, 100);
    assert_eq!(opts.resolver, Some("9.9.9.9".to_owned()));
    assert_eq!(opts.addresses, vec!["127.0.0.1".to_owned()]);
    assert_eq!(opts.scan_order, ScanOrder::Random);
}

#[test]
fn explicit_ports_win_over_top_mode() {
    let mut config = empty_config();
    config.ports = Some(vec![80, 443]);
    let given = GivenFlags { ports: true, ..Default::default() };
    let mut opts = Opts::read(Opts {
        no_config: false,
        top: true,
        ports: Some(vec![22]),
        given,
        ..Default::default()
    });
    opts.merge_optional(&config);
    assert_eq!(opts.ports, Some(vec![22]));
}

#[test]
fn explicit_range_wins_over_top_mode() {
    let mut config = empty_config();
    config.ports = Some(vec![80, 443]);
    let given = GivenFlags { range: true, ..Default::default() };
    let mut opts = Opts::read(Opts {
        no_config: false,
        top: true,
        range: Some(PortRange { start: 1, end: 100 }),
        given,
        ..Default::default()
    });
    assert_eq!(opts.ports, None);
    opts.merge(&config);
    assert_eq!(opts.ports, None);
    assert_eq!(opts.range, Some(PortRange { start: 1, end: 100 }));
}

#[test]
fn read_selects_the_top_ports_in_top_mode() {
    let opts = Opts::read(Opts { top: true, ..Default::default() });
    let ports = opts.ports.expect("top ports");
    assert_eq!(ports.len(), 1000);
    assert_eq!(ports, TOP_PORTS.to_vec());
    assert_eq!(opts.range, None);
}

#[test]
fn top_ports_are_a_thousand_distinct_ascending_ports() {
    assert_eq!(TOP_PORTS.len(), 1000);
    assert!(TOP_PORTS.windows(2).all(|w| w[0] < w[1]));
    for port in [21, 22, 23, 25, 53, 80, 110, 143, 443, 445, 3306, 3389, 8080] {
        assert!(TOP_PORTS.contains(&port), "{port}");
    }
}

#[test]
fn merge_twice_is_merge_once() {
    let mut config = default_config();
    config.range = Some(PortRange { start: 1, end: 100 });
    let mut once = Opts { no_config: false, ..Default::default() };
    once.merge(&config);
    let mut twice = Opts { no_config: false, ..Default::default() };
    twice.merge(&config);
    twice.merge(&config);
    assert_eq!(once.addresses, twice.addresses);
    assert_eq!(once.batch_size, twice.batch_size);
    assert_eq!(once.timeout, twice.timeout);
    assert_eq!(once.range, twice.range);
    assert_eq!(once.scan_order, twice.scan_order);
}

#[test]
fn read_fills_in_the_whole_port_range() {
    let opts = Opts::read(Opts::default());
    assert_eq!(opts.range, Some(PortRange { start: 1, end: 65535 }));
    assert_eq!(opts.ports, None);
}

#[test]
fn read_keeps_given_ports_or_range() {
    let with_ports = Opts::read(Opts { ports: Some(vec![22, 80, 443]), ..Default::default() });
    assert_eq!(with_ports.ports, Some(vec![22, 80, 443]));
    assert_eq!(with_ports.range, None);

    let with_range =
        Opts::read(Opts { range: Some(PortRange { start: 1, end: 1000 }), ..Default::default() });
    assert_eq!(with_range.range, Some(PortRange { start: 1, end: 1000 }));
    assert_eq!(with_range.ports, None);
}
