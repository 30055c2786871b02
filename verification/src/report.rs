//! The scan's result: the open ports of each scanned host.
use std::collections::HashMap;
use vstd::prelude::*;

verus! {

broadcast use vstd::std_specs::hash::group_hash_axioms;

/// An IP address, by its number.
#[derive(Clone, Copy, Debug, PartialEq, Eq, Structural)]
pub enum HostAddr {
    V4(u32),
    V6(u128),
}

/// A host and the open ports found on it.
#[derive(Debug, Clone, PartialEq, Eq)]
pub struct HostPorts {
    pub ip: HostAddr,
    pub ports: Vec<u16>,
}

/// The ports of the open sockets that belong to `ip`, in the order in which
/// the scan found them.
pub open spec fn ports_of(open: Seq<(HostAddr, u16)>, ip: HostAddr) -> Seq<u16>
    decreases open.len(),
{
    if open.len() == 0 {
        Seq::empty()
    } else {
        let rest = ports_of(open.drop_last(), ip);
        if open.last().0 == ip {
            rest.push(open.last().1)
        } else {
            rest
        }
    }
}

/// Each host of `ips` that has at least one open socket, in the order of
/// `ips`, with its open ports.
pub open spec fn spec_report(ips: Seq<HostAddr>, open: Seq<(HostAddr, u16)>) -> Seq<
    (HostAddr, Seq<u16>),
>
    decreases ips.len(),
{
    if ips.len() == 0 {
        Seq::empty()
    } else {
        let rest = spec_report(ips.drop_last(), open);
        let ports = ports_of(open, ips.last());
        if ports.len() > 0 {
            rest.push((ips.last(), ports))
        } else {
            rest
        }
    }
}

/// Only hosts with at least one open port are reported; each reported host
/// is a scanned one, reported with all of its open ports; there are no more
/// entries than scanned hosts.
pub proof fn lemma_report_entries(ips: Seq<HostAddr>, open: Seq<(HostAddr, u16)>)
    ensures
        spec_report(ips, open).len() <= ips.len(),
        forall|k: int|
            0 <= k < spec_report(ips, open).len() ==> {
                let e = #[trigger] spec_report(ips, open)[k];
                &&& e.1.len() > 0
                &&& ips.contains(e.0)
                &&& e.1 == ports_of(open, e.0)
            },
    decreases ips.len(),
{
    if ips.len() > 0 {
        let rest = ips.drop_last();
        lemma_report_entries(rest, open);
        let r = spec_report(ips, open);
        let rr = spec_report(rest, open);
        assert forall|k: int| 0 <= k < r.len() implies {
            let e = #[trigger] r[k];
            &&& e.1.len() > 0
            &&& ips.contains(e.0)
            &&& e.1 == ports_of(open, e.0)
        } by {
            if k < rr.len() {
                let e = rr[k];
                let w = choose|w: int| 0 <= w < rest.len() && rest[w] == e.0;
                assert(ips[w] == e.0);
            } else {
                assert(ips[ips.len() - 1] == ips.last());
            }
        }
    }
}

/// Every scanned host with an open port is reported.
pub proof fn lemma_report_complete(ips: Seq<HostAddr>, open: Seq<(HostAddr, u16)>, ip: HostAddr)
    requires
        ips.contains(ip),
        ports_of(open, ip).len() > 0,
    ensures
        exists|k: int|
            0 <= k < spec_report(ips, open).len() && (#[trigger] spec_report(ips, open)[k]).0
                == ip,
    decreases ips.len(),
{
    let rest = ips.drop_last();
    let r = spec_report(ips, open);
    if ips.last() == ip {
        assert(r[r.len() - 1].0 == ip);
    } else {
        let w = choose|w: int| 0 <= w < ips.len() && ips[w] == ip;
        assert(rest[w] == ip);
        lemma_report_complete(rest, open, ip);
        let k = choose|k: int|
            0 <= k < spec_report(rest, open).len() && (#[trigger] spec_report(rest, open)[k]).0
                == ip;
        assert(r[k].0 == ip);
    }
}

/// A port is reported for a host exactly where the scan found that port of
/// that host open.
pub proof fn lemma_ports_of_exact(open: Seq<(HostAddr, u16)>, ip: HostAddr, port: u16)
    ensures
        ports_of(open, ip).contains(port) <==> open.contains((ip, port)),
    decreases open.len(),
{
    if open.len() > 0 {
        let rest = open.drop_last();
        lemma_ports_of_exact(rest, ip, port);
        let p = ports_of(open, ip);
        let pr = ports_of(rest, ip);
        if open.contains((ip, port)) {
            let w = choose|w: int| 0 <= w < open.len() && open[w] == (ip, port);
            if w < rest.len() {
                assert(rest[w] == (ip, port));
                let v = choose|v: int| 0 <= v < pr.len() && pr[v] == port;
                assert(p[v] == port);
            } else {
                assert(p[p.len() - 1] == port);
            }
        }
        if p.contains(port) {
            let v = choose|v: int| 0 <= v < p.len() && p[v] == port;
            if v < pr.len() {
                assert(pr[v] == port);
                let w = choose|w: int| 0 <= w < rest.len() && rest[w] == (ip, port);
                assert(open[w] == (ip, port));
            } else {
                assert(open[open.len() - 1] == (ip, port));
            }
        }
    }
}

/// `by_v4` and `by_v6` hold, for each IPv4 and IPv6 address, the open ports
/// of `open` that belong to it, and no address without an open port.
pub open spec fn groups_open_ports(
    by_v4: Map<u32, Vec<u16>>,
    by_v6: Map<u128, Vec<u16>>,
    open: Seq<(HostAddr, u16)>,
) -> bool {
    &&& forall|a: u32| #[trigger]
        by_v4.contains_key(a) == (ports_of(open, HostAddr::V4(a)).len() > 0)
    &&& forall|a: u32| #[trigger]
        by_v4.contains_key(a) ==> by_v4[a]@ == ports_of(open, HostAddr::V4(a))
    &&& forall|a: u128| #[trigger]
        by_v6.contains_key(a) == (ports_of(open, HostAddr::V6(a)).len() > 0)
    &&& forall|a: u128| #[trigger]
        by_v6.contains_key(a) ==> by_v6[a]@ == ports_of(open, HostAddr::V6(a))
}

/// Groups the open sockets by address: one map for IPv4 and one for IPv6
/// addresses, each from the address's number to its open ports.
fn group_by_address(open: &Vec<(HostAddr, u16)>) -> (groups: (
    HashMap<u32, Vec<u16>>,
    HashMap<u128, Vec<u16>>,
))
    ensures
        groups_open_ports(groups.0@, groups.1@, open@),
{
    let mut by_v4: HashMap<u32, Vec<u16>> = HashMap::new();
    let mut by_v6: HashMap<u128, Vec<u16>> = HashMap::new();
    let mut j: usize = 0;
    while j < open.len()
        invariant
            j <= open.len(),
            groups_open_ports(by_v4@, by_v6@, open@.take(j as int)),
        decreases open.len() - j,
    {
        let ghost before = open@.take(j as int);
        let ghost after = open@.take(j + 1);
        proof {
            assert(after.drop_last() =~= before);
        }
        let (host, port) = open[j];
        match host {
            HostAddr::V4(a) => {
                let mut ports = match by_v4.remove(&a) {
                    Some(v) => v,
                    None => Vec::new(),
                };
                ports.push(port);
                by_v4.insert(a, ports);
                proof {
                    assert forall|b: u32| #[trigger] by_v4@.contains_key(b) == (ports_of(
                        after,
                        HostAddr::V4(b),
                    ).len() > 0) by {
                        assert(ports_of(after, HostAddr::V4(b)) == if b == a {
                            ports_of(before, HostAddr::V4(b)).push(port)
                        } else {
                            ports_of(before, HostAddr::V4(b))
                        });
                    }
                    assert forall|b: u32| #[trigger] by_v4@.contains_key(b) implies by_v4@[b]@
                        == ports_of(after, HostAddr::V4(b)) by {
                        assert(ports_of(after, HostAddr::V4(b)) == if b == a {
                            ports_of(before, HostAddr::V4(b)).push(port)
                        } else {
                            ports_of(before, HostAddr::V4(b))
                        });
                    }
                    assert forall|b: u128| #[trigger] by_v6@.contains_key(b) == (ports_of(
                        after,
                        HostAddr::V6(b),
                    ).len() > 0) by {
                        assert(ports_of(after, HostAddr::V6(b)) == ports_of(before, HostAddr::V6(b)));
                    }
                    assert forall|b: u128| #[trigger] by_v6@.contains_key(b) implies by_v6@[b]@
                        == ports_of(after, HostAddr::V6(b)) by {
                        assert(ports_of(after, HostAddr::V6(b)) == ports_of(before, HostAddr::V6(b)));
                    }
                }
            },
            HostAddr::V6(a) => {
                let mut ports = match by_v6.remove(&a) {
                    Some(v) => v,
                    None => Vec::new(),
                };
                ports.push(port);
                by_v6.insert(a, ports);
                proof {
                    assert forall|b: u128| #[trigger] by_v6@.contains_key(b) == (ports_of(
                        after,
                        HostAddr::V6(b),
                    ).len() > 0) by {
                        assert(ports_of(after, HostAddr::V6(b)) == if b == a {
                            ports_of(before, HostAddr::V6(b)).push(port)
                        } else {
                            ports_of(before, HostAddr::V6(b))
                        });
                    }
                    assert forall|b: u128| #[trigger] by_v6@.contains_key(b) implies by_v6@[b]@
                        == ports_of(after, HostAddr::V6(b)) by {
                        assert(ports_of(after, HostAddr::V6(b)) == if b == a {
                            ports_of(before, HostAddr::V6(b)).push(port)
                        } else {
                            ports_of(before, HostAddr::V6(b))
                        });
                    }
                    assert forall|b: u32| #[trigger] by_v4@.contains_key(b) == (ports_of(
                        after,
                        HostAddr::V4(b),
                    ).len() > 0) by {
                        assert(ports_of(after, HostAddr::V4(b)) == ports_of(before, HostAddr::V4(b)));
                    }
                    assert forall|b: u32| #[trigger] by_v4@.contains_key(b) implies by_v4@[b]@
                        == ports_of(after, HostAddr::V4(b)) by {
                        assert(ports_of(after, HostAddr::V4(b)) == ports_of(before, HostAddr::V4(b)));
                    }
                }
            },
        }
        j = j + 1;
    }
    proof {
        assert(open@.take(open.len() as int) =~= open@);
    }
    (by_v4, by_v6)
}

/// A copy of a list of ports.
fn copy_ports(ports: &Vec<u16>) -> (copy: Vec<u16>)
    ensures
        copy@ == ports@,
{
    let copy = ports.clone();
    proof {
        assert(copy@ =~= ports@);
    }
    copy
}

/// Groups the open sockets of a scan by host: each host of `ips` that has at
/// least one open socket in `open`, in the order of `ips`, with the ports of
/// its open sockets in the order in which they were found.
pub fn ports_per_host(ips: &Vec<HostAddr>, open: &Vec<(HostAddr, u16)>) -> (report: Vec<
    HostPorts,
>)
    ensures
        report.len() == spec_report(ips@, open@).len(),
        forall|k: int|
            0 <= k < report.len() ==> (#[trigger] report[k]).ip == spec_report(ips@, open@)[k].0
                && report[k].ports@ == spec_report(ips@, open@)[k].1,
{
    let (by_v4, by_v6) = group_by_address(open);
    let mut report: Vec<HostPorts> = Vec::new();
    let mut i: usize = 0;
    while i < ips.len()
        invariant
            i <= ips.len(),
            groups_open_ports(by_v4@, by_v6@, open@),
            report.len() == spec_report(ips@.take(i as int), open@).len(),
            forall|k: int|
                0 <= k < report.len() ==> (#[trigger] report[k]).ip == spec_report(
                    ips@.take(i as int),
                    open@,
                )[k].0 && report[k].ports@ == spec_report(ips@.take(i as int), open@)[k].1,
        decreases ips.len() - i,
    {
        proof {
            assert(ips@.take(i + 1).drop_last() =~= ips@.take(i as int));
        }
        let ip = ips[i];
        let found = match ip {
            HostAddr::V4(a) => by_v4.get(&a),
            HostAddr::V6(a) => by_v6.get(&a),
        };
        if let Some(ports) = found {
            report.push(HostPorts { ip, ports: copy_ports(ports) });
        }
        i = i + 1;
    }
    proof {
        assert(ips@.take(ips.len() as int) =~= ips@);
    }
    report
}

} // verus!

verus! {

/// The host `ip` has at least one open socket in `open`.
pub open spec fn has_open_port(open: Seq<(HostAddr, u16)>, ip: HostAddr) -> bool {
    exists|j: int| 0 <= j < open.len() && (#[trigger] open[j]).0 == ip
}

/// The ports reported for a host are the ports of exactly the open sockets
/// of that host, in the order in which the scan found them.
pub proof fn lemma_ports_of_is_filter(open: Seq<(HostAddr, u16)>, ip: HostAddr)
    ensures
        ports_of(open, ip) == open.filter(|s: (HostAddr, u16)| s.0 == ip).map_values(
            |s: (HostAddr, u16)| s.1,
        ),
    decreases open.len(),
{
    reveal(Seq::filter);
    let f = |s: (HostAddr, u16)| s.0 == ip;
    let g = |s: (HostAddr, u16)| s.1;
    if open.len() == 0 {
        assert(open.filter(f).map_values(g) =~= Seq::<u16>::empty());
    } else {
        lemma_ports_of_is_filter(open.drop_last(), ip);
        assert(ports_of(open, ip) =~= open.filter(f).map_values(g));
    }
}

/// A host has reported ports exactly where it has an open socket.
pub proof fn lemma_ports_of_nonempty(open: Seq<(HostAddr, u16)>, ip: HostAddr)
    ensures
        ports_of(open, ip).len() > 0 <==> has_open_port(open, ip),
    decreases open.len(),
{
    if open.len() > 0 {
        let rest = open.drop_last();
        lemma_ports_of_nonempty(rest, ip);
        if has_open_port(rest, ip) {
            let j = choose|j: int| 0 <= j < rest.len() && (#[trigger] rest[j]).0 == ip;
            assert(open[j] == rest[j]);
        }
        if has_open_port(open, ip) && open.last().0 != ip {
            let j = choose|j: int| 0 <= j < open.len() && (#[trigger] open[j]).0 == ip;
            assert(j < rest.len());
            assert(rest[j] == open[j]);
        }
        if open.last().0 == ip {
            assert(open[open.len() - 1].0 == ip);
        }
    }
}

/// The report is, in the order of the scanned hosts, exactly one entry per
/// scanned host that has an open port (a host scanned twice counts twice),
/// each with the ports of that host: the k-th entry belongs to the k-th
/// such host, and there are as many entries as such hosts.
pub proof fn lemma_report_is_filter(ips: Seq<HostAddr>, open: Seq<(HostAddr, u16)>)
    ensures
        spec_report(ips, open) == ips.filter(|ip: HostAddr| has_open_port(open, ip)).map_values(
            |ip: HostAddr| (ip, ports_of(open, ip)),
        ),
    decreases ips.len(),
{
    reveal(Seq::filter);
    let f = |ip: HostAddr| has_open_port(open, ip);
    let g = |ip: HostAddr| (ip, ports_of(open, ip));
    if ips.len() == 0 {
        assert(ips.filter(f).map_values(g) =~= Seq::<(HostAddr, Seq<u16>)>::empty());
    } else {
        lemma_report_is_filter(ips.drop_last(), open);
        lemma_ports_of_nonempty(open, ips.last());
        assert(spec_report(ips, open) =~= ips.filter(f).map_values(g));
    }
}

} // verus!
