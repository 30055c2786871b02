//! The scan options: what the command line gives, what a configuration file
//! gives, and how the two are merged.
use vstd::prelude::*;
use std::path::PathBuf;

use crate::range::PortRange;
use crate::top_ports::{top_ports, TOP_PORTS};

verus! {

/// The lowest port of the default range.
pub const LOWEST_PORT_NUMBER: u16 = 1;

/// The highest port of the default range.
pub const TOP_PORT_NUMBER: u16 = 65535;

/// A file system path; the options only carry it.
#[verifier::external_type_specification]
#[verifier::external_body]
pub struct ExPathBuf(PathBuf);

/// Represents the strategy in which the port scanning will run.
///   - Serial will run from start to end, for example 1 to 1_000.
///   - Random will randomize the order in which ports will be scanned.
#[derive(Clone, Copy, Debug, PartialEq, Eq, Structural)]
pub enum ScanOrder {
    Serial,
    Random,
}

/// Which options the command line gave, as opposed to left at their
/// defaults. A value that the command line gave wins over the
/// configuration file's.
#[derive(Clone, Copy, Debug, PartialEq, Eq, Structural)]
pub struct GivenFlags {
    pub addresses: bool,
    pub ports: bool,
    pub range: bool,
    pub resolver: bool,
    pub batch_size: bool,
    pub timeout: bool,
    pub tries: bool,
    pub ulimit: bool,
    pub scan_order: bool,
    pub exclude_ports: bool,
    pub exclude_addresses: bool,
    pub udp: bool,
    pub confirm: bool,
}

/// No option given on the command line.
pub open spec fn nothing_given() -> GivenFlags {
    GivenFlags {
        addresses: false,
        ports: false,
        range: false,
        resolver: false,
        batch_size: false,
        timeout: false,
        tries: false,
        ulimit: false,
        scan_order: false,
        exclude_ports: false,
        exclude_addresses: false,
        udp: false,
        confirm: false,
    }
}

impl Default for GivenFlags {
    /// No option given on the command line.
    fn default() -> (given: Self)
        ensures
            given == nothing_given(),
    {
        GivenFlags {
            addresses: false,
            ports: false,
            range: false,
            resolver: false,
            batch_size: false,
            timeout: false,
            tries: false,
            ulimit: false,
            scan_order: false,
            exclude_ports: false,
            exclude_addresses: false,
            udp: false,
            confirm: false,
        }
    }
}

/// The options of a scan, as the command line gives them.
#[derive(Debug, Clone)]
pub struct Opts {
    /// CIDRs, IPs or hosts to be scanned.
    pub addresses: Vec<String>,
    /// Ports to be scanned.
    pub ports: Option<Vec<u16>>,
    /// A range of ports to be scanned.
    pub range: Option<PortRange>,
    /// Whether to ignore the configuration file.
    pub no_config: bool,
    /// Custom path to the configuration file.
    pub config_path: Option<PathBuf>,
    /// DNS resolvers.
    pub resolver: Option<String>,
    /// How many sockets are open at the same time.
    pub batch_size: usize,
    /// Milliseconds before a port is assumed to be closed.
    pub timeout: u32,
    /// Probes before a port is assumed to be closed.
    pub tries: u8,
    /// The file descriptor limit to set.
    pub ulimit: Option<usize>,
    /// The order in which ports are scanned.
    pub scan_order: ScanOrder,
    /// Use the top 1000 ports.
    pub top: bool,
    /// Ports to be left out.
    pub exclude_ports: Option<Vec<u16>>,
    /// CIDRs, IPs or hosts to be left out.
    pub exclude_addresses: Option<Vec<String>>,
    /// UDP scanning mode.
    pub udp: bool,
    /// Timeout of the confirming second connect, in milliseconds.
    pub confirm: Option<u32>,
    /// Which of the options above the command line gave.
    pub given: GivenFlags,
}

/// The options as mathematical values (all but the configuration path,
/// which no operation here reads or changes).
pub struct OptsView {
    pub addresses: Seq<Seq<char>>,
    pub ports: Option<Seq<u16>>,
    pub range: Option<PortRange>,
    pub no_config: bool,
    pub resolver: Option<Seq<char>>,
    pub batch_size: usize,
    pub timeout: u32,
    pub tries: u8,
    pub ulimit: Option<usize>,
    pub scan_order: ScanOrder,
    pub top: bool,
    pub exclude_ports: Option<Seq<u16>>,
    pub exclude_addresses: Option<Seq<Seq<char>>>,
    pub udp: bool,
    pub confirm: Option<u32>,
    pub given: GivenFlags,
}

impl View for Opts {
    type V = OptsView;

    open spec fn view(&self) -> OptsView {
        OptsView {
            addresses: self.addresses.deep_view(),
            ports: self.ports.deep_view(),
            range: self.range,
            no_config: self.no_config,
            resolver: self.resolver.deep_view(),
            batch_size: self.batch_size,
            timeout: self.timeout,
            tries: self.tries,
            ulimit: self.ulimit,
            scan_order: self.scan_order,
            top: self.top,
            exclude_ports: self.exclude_ports.deep_view(),
            exclude_addresses: self.exclude_addresses.deep_view(),
            udp: self.udp,
            confirm: self.confirm,
            given: self.given,
        }
    }
}

/// The options that a configuration file sets; a field that the file leaves
/// out is `None`.
#[derive(Debug)]
pub struct Config {
    pub addresses: Option<Vec<String>>,
    pub ports: Option<Vec<u16>>,
    pub range: Option<PortRange>,
    pub batch_size: Option<usize>,
    pub timeout: Option<u32>,
    pub tries: Option<u8>,
    pub ulimit: Option<usize>,
    pub resolver: Option<String>,
    pub scan_order: Option<ScanOrder>,
    pub exclude_ports: Option<Vec<u16>>,
    pub exclude_addresses: Option<Vec<String>>,
    pub udp: Option<bool>,
    pub confirm: Option<u32>,
}

/// A configuration as mathematical values.
pub struct ConfigView {
    pub addresses: Option<Seq<Seq<char>>>,
    pub ports: Option<Seq<u16>>,
    pub range: Option<PortRange>,
    pub batch_size: Option<usize>,
    pub timeout: Option<u32>,
    pub tries: Option<u8>,
    pub ulimit: Option<usize>,
    pub resolver: Option<Seq<char>>,
    pub scan_order: Option<ScanOrder>,
    pub exclude_ports: Option<Seq<u16>>,
    pub exclude_addresses: Option<Seq<Seq<char>>>,
    pub udp: Option<bool>,
    pub confirm: Option<u32>,
}

impl View for Config {
    type V = ConfigView;

    open spec fn view(&self) -> ConfigView {
        ConfigView {
            addresses: self.addresses.deep_view(),
            ports: self.ports.deep_view(),
            range: self.range,
            batch_size: self.batch_size,
            timeout: self.timeout,
            tries: self.tries,
            ulimit: self.ulimit,
            resolver: self.resolver.deep_view(),
            scan_order: self.scan_order,
            exclude_ports: self.exclude_ports.deep_view(),
            exclude_addresses: self.exclude_addresses.deep_view(),
            udp: self.udp,
            confirm: self.confirm,
        }
    }
}

/// The configuration's value, where the command line did not give one and
/// the configuration sets one; else the value already there.
pub open spec fn unless_given<T>(given: bool, from_config: Option<T>, current: T) -> T {
    match from_config {
        Some(v) if !given => v,
        _ => current,
    }
}

/// The configuration's optional value, where the command line did not give
/// one and the configuration sets one; else the value already there.
pub open spec fn unless_given_opt<T>(given: bool, from_config: Option<T>, current: Option<T>) -> Option<
    T,
> {
    if !given && from_config is Some {
        from_config
    } else {
        current
    }
}

/// The options once the configuration's values of the fields that always
/// hold a value (addresses, batch size, timeout, tries, scan order, UDP
/// mode) are taken over, for the fields that the command line did not give.
pub open spec fn spec_merge_required(o: OptsView, c: ConfigView) -> OptsView {
    OptsView {
        addresses: unless_given(o.given.addresses, c.addresses, o.addresses),
        batch_size: unless_given(o.given.batch_size, c.batch_size, o.batch_size),
        timeout: unless_given(o.given.timeout, c.timeout, o.timeout),
        tries: unless_given(o.given.tries, c.tries, o.tries),
        scan_order: unless_given(o.given.scan_order, c.scan_order, o.scan_order),
        udp: unless_given(o.given.udp, c.udp, o.udp),
        ..o
    }
}

/// The configuration's ports are taken in top-ports mode only, and only
/// where the command line gave neither ports nor a range: `-p` and `-r`
/// come before `--top`.
pub open spec fn takes_config_ports(o: OptsView, c: ConfigView) -> bool {
    o.top && !o.given.ports && !o.given.range && c.ports is Some
}

/// The options once the configuration's values of the optional fields are
/// taken over, for the fields that the command line did not give.
pub open spec fn spec_merge_optional(o: OptsView, c: ConfigView) -> OptsView {
    OptsView {
        ports: if takes_config_ports(o, c) { c.ports } else { o.ports },
        range: unless_given_opt(o.given.range, c.range, o.range),
        resolver: unless_given_opt(o.given.resolver, c.resolver, o.resolver),
        ulimit: unless_given_opt(o.given.ulimit, c.ulimit, o.ulimit),
        exclude_ports: unless_given_opt(o.given.exclude_ports, c.exclude_ports, o.exclude_ports),
        exclude_addresses: unless_given_opt(
            o.given.exclude_addresses,
            c.exclude_addresses,
            o.exclude_addresses,
        ),
        confirm: unless_given_opt(o.given.confirm, c.confirm, o.confirm),
        ..o
    }
}

/// The options once the configuration is merged in, unless the options say
/// to ignore it.
pub open spec fn spec_merge(o: OptsView, c: ConfigView) -> OptsView {
    if o.no_config {
        o
    } else {
        spec_merge_optional(spec_merge_required(o, c), c)
    }
}

/// The options once a missing port selection is filled in: the top 1000
/// ports in top-ports mode, else the whole range of ports.
pub open spec fn spec_read(o: OptsView) -> OptsView {
    if o.ports is None && o.range is None {
        if o.top {
            OptsView { ports: Some(TOP_PORTS@), ..o }
        } else {
            OptsView {
                range: Some(PortRange { start: LOWEST_PORT_NUMBER, end: TOP_PORT_NUMBER }),
                ..o
            }
        }
    } else {
        o
    }
}

/// The options hold a port selection: ports or a range.
pub open spec fn has_port_selection(o: OptsView) -> bool {
    o.ports is Some || o.range is Some
}

/// A configuration file that sets nothing.
pub open spec fn sets_nothing(c: ConfigView) -> bool {
    &&& c.addresses is None
    &&& c.ports is None
    &&& c.range is None
    &&& c.batch_size is None
    &&& c.timeout is None
    &&& c.tries is None
    &&& c.ulimit is None
    &&& c.resolver is None
    &&& c.scan_order is None
    &&& c.exclude_ports is None
    &&& c.exclude_addresses is None
    &&& c.udp is None
    &&& c.confirm is None
}

/// Options that say to ignore the configuration file come out of a merge
/// unchanged, whatever the file holds.
pub proof fn lemma_merge_ignored_when_no_config(o: OptsView, c: ConfigView)
    requires
        o.no_config,
    ensures
        spec_merge(o, c) == o,
{
}

/// A configuration file that sets nothing changes no option.
pub proof fn lemma_merge_empty_config(o: OptsView, c: ConfigView)
    requires
        sets_nothing(c),
    ensures
        spec_merge(o, c) == o,
{
}

/// Merging the same configuration a second time changes nothing more.
pub proof fn lemma_merge_idempotent(o: OptsView, c: ConfigView)
    ensures
        spec_merge(spec_merge(o, c), c) == spec_merge(o, c),
{
}

/// The two steps of a merge touch different options, so their order does
/// not matter.
pub proof fn lemma_merge_steps_commute(o: OptsView, c: ConfigView)
    ensures
        spec_merge_optional(spec_merge_required(o, c), c) == spec_merge_required(
            spec_merge_optional(o, c),
            c,
        ),
{
}

/// A merge leaves the switches that decide how it works (ignore the file,
/// top-ports mode, which options the command line gave) as they were.
pub proof fn lemma_merge_keeps_switches(o: OptsView, c: ConfigView)
    ensures
        spec_merge(o, c).no_config == o.no_config,
        spec_merge(o, c).top == o.top,
        spec_merge(o, c).given == o.given,
{
}

/// Command-line values override the configuration file: a merge never
/// changes a value that the command line gave.
pub proof fn lemma_merge_command_line_wins(o: OptsView, c: ConfigView)
    ensures
        o.given.addresses ==> spec_merge(o, c).addresses == o.addresses,
        o.given.batch_size ==> spec_merge(o, c).batch_size == o.batch_size,
        o.given.timeout ==> spec_merge(o, c).timeout == o.timeout,
        o.given.tries ==> spec_merge(o, c).tries == o.tries,
        o.given.scan_order ==> spec_merge(o, c).scan_order == o.scan_order,
        o.given.udp ==> spec_merge(o, c).udp == o.udp,
        o.given.ports ==> spec_merge(o, c).ports == o.ports,
        o.given.range ==> spec_merge(o, c).ports == o.ports && spec_merge(o, c).range == o.range,
        o.given.resolver ==> spec_merge(o, c).resolver == o.resolver,
        o.given.ulimit ==> spec_merge(o, c).ulimit == o.ulimit,
        o.given.exclude_ports ==> spec_merge(o, c).exclude_ports == o.exclude_ports,
        o.given.exclude_addresses ==> spec_merge(o, c).exclude_addresses == o.exclude_addresses,
        o.given.confirm ==> spec_merge(o, c).confirm == o.confirm,
{
}

/// Where the configuration file is not ignored, every value that it sets
/// for an option the command line did not give is the value that the merged
/// options hold; its ports are taken in top-ports mode only, and only where
/// the command line gave neither ports nor a range.
pub proof fn lemma_merge_config_fills_the_rest(o: OptsView, c: ConfigView)
    requires
        !o.no_config,
    ensures
        !o.given.addresses && c.addresses is Some ==> spec_merge(o, c).addresses
            == c.addresses.unwrap(),
        !o.given.batch_size && c.batch_size is Some ==> spec_merge(o, c).batch_size
            == c.batch_size.unwrap(),
        !o.given.timeout && c.timeout is Some ==> spec_merge(o, c).timeout == c.timeout.unwrap(),
        !o.given.tries && c.tries is Some ==> spec_merge(o, c).tries == c.tries.unwrap(),
        !o.given.scan_order && c.scan_order is Some ==> spec_merge(o, c).scan_order
            == c.scan_order.unwrap(),
        !o.given.udp && c.udp is Some ==> spec_merge(o, c).udp == c.udp.unwrap(),
        !o.given.range && c.range is Some ==> spec_merge(o, c).range == c.range,
        !o.given.resolver && c.resolver is Some ==> spec_merge(o, c).resolver == c.resolver,
        !o.given.ulimit && c.ulimit is Some ==> spec_merge(o, c).ulimit == c.ulimit,
        !o.given.exclude_ports && c.exclude_ports is Some ==> spec_merge(o, c).exclude_ports
            == c.exclude_ports,
        !o.given.exclude_addresses && c.exclude_addresses is Some ==> spec_merge(
            o,
            c,
        ).exclude_addresses == c.exclude_addresses,
        !o.given.confirm && c.confirm is Some ==> spec_merge(o, c).confirm == c.confirm,
        o.top && !o.given.ports && !o.given.range && c.ports is Some ==> spec_merge(o, c).ports
            == c.ports,
        !o.top ==> spec_merge(o, c).ports == o.ports,
{
}

/// Read options always hold a port selection. Ports on the command line
/// come first, then a range, then the top 1000 ports, then the whole range
/// of ports.
pub proof fn lemma_read_selects_ports(o: OptsView)
    ensures
        has_port_selection(spec_read(o)),
        o.ports is Some ==> spec_read(o) == o,
        o.ports is None && o.range is Some ==> spec_read(o) == o,
        o.ports is None && o.range is None && o.top ==> spec_read(o).ports == Some(TOP_PORTS@)
            && spec_read(o).range is None,
        o.ports is None && o.range is None && !o.top ==> spec_read(o).ports is None
            && spec_read(o).range == Some(
            PortRange { start: LOWEST_PORT_NUMBER, end: TOP_PORT_NUMBER },
        ),
{
}

/// A merge never takes a port selection away.
pub proof fn lemma_merge_keeps_port_selection(o: OptsView, c: ConfigView)
    requires
        has_port_selection(o),
    ensures
        has_port_selection(spec_merge(o, c)),
{
}

/// A copy of a list of strings.
fn clone_strings(v: &Vec<String>) -> (r: Vec<String>)
    ensures
        r.deep_view() == v.deep_view(),
{
    let r = v.clone();
    proof {
        assert(r.deep_view() =~= v.deep_view());
    }
    r
}

/// A copy of an optional list of strings.
fn clone_opt_strings(v: &Option<Vec<String>>) -> (r: Option<Vec<String>>)
    ensures
        r.deep_view() == v.deep_view(),
{
    match v {
        Some(s) => Some(clone_strings(s)),
        None => None,
    }
}

/// A copy of an optional list of ports.
fn clone_opt_ports(v: &Option<Vec<u16>>) -> (r: Option<Vec<u16>>)
    ensures
        r.deep_view() == v.deep_view(),
{
    match v {
        Some(p) => {
            let c = p.clone();
            proof {
                assert(c.deep_view() =~= p.deep_view());
            }
            Some(c)
        },
        None => None,
    }
}

/// A copy of an optional string.
fn clone_opt_string(v: &Option<String>) -> (r: Option<String>)
    ensures
        r.deep_view() == v.deep_view(),
{
    match v {
        Some(s) => Some(s.clone()),
        None => None,
    }
}

impl Opts {
    /// Fills in the port selection of freshly parsed command-line options:
    /// where neither ports nor a range were given, the ports become the top
    /// 1000 ports in top-ports mode, and the range becomes the whole range of
    /// ports, 1 to 65535, otherwise.
    pub fn read(parsed: Opts) -> (opts: Opts)
        ensures
            opts@ == spec_read(parsed@),
            opts.config_path == parsed.config_path,
    {
        let mut opts = parsed;
        if opts.ports.is_none() && opts.range.is_none() {
            if opts.top {
                let top = top_ports();
                proof {
                    assert(top.deep_view() =~= top@);
                }
                opts.ports = Some(top);
            } else {
                opts.range = Some(PortRange { start: LOWEST_PORT_NUMBER, end: TOP_PORT_NUMBER });
            }
        }
        opts
    }

    /// Merges the values found within the user configuration file into the
    /// options, unless the options say to ignore the configuration file.
    pub fn merge(&mut self, config: &Config)
        ensures
            final(self)@ == spec_merge(old(self)@, config@),
            final(self).config_path == old(self).config_path,
    {
        if !self.no_config {
            self.merge_required(config);
            self.merge_optional(config);
        }
    }

    /// Takes over the configuration's addresses, batch size, timeout, tries,
    /// scan order and UDP mode, where it sets them and the command line did
    /// not give them.
    pub fn merge_required(&mut self, config: &Config)
        ensures
            final(self)@ == spec_merge_required(old(self)@, config@),
            final(self).config_path == old(self).config_path,
    {
        if !self.given.addresses && config.addresses.is_some() {
            self.addresses = clone_strings(config.addresses.as_ref().unwrap());
        }
        self.batch_size = take_unless_given(self.given.batch_size, config.batch_size, self.batch_size);
        self.timeout = take_unless_given(self.given.timeout, config.timeout, self.timeout);
        self.tries = take_unless_given(self.given.tries, config.tries, self.tries);
        self.scan_order = take_unless_given(self.given.scan_order, config.scan_order, self.scan_order);
        self.udp = take_unless_given(self.given.udp, config.udp, self.udp);
    }

    /// Takes over the configuration's range, resolver, file descriptor
    /// limit, excluded ports and addresses and confirm timeout, where it sets
    /// them and the command line did not give them; and its ports where it
    /// sets them, the options ask for the top ports and the command line gave
    /// neither ports nor a range.
    pub fn merge_optional(&mut self, config: &Config)
        ensures
            final(self)@ == spec_merge_optional(old(self)@, config@),
            final(self).config_path == old(self).config_path,
    {
        if self.top && !self.given.ports && !self.given.range && config.ports.is_some() {
            self.ports = clone_opt_ports(&config.ports);
        }
        self.range = take_opt_unless_given(self.given.range, config.range, self.range);
        take_string_unless_given(self.given.resolver, &config.resolver, &mut self.resolver);
        self.ulimit = take_opt_unless_given(self.given.ulimit, config.ulimit, self.ulimit);
        take_ports_unless_given(self.given.exclude_ports, &config.exclude_ports, &mut self.exclude_ports);
        take_strings_unless_given(
            self.given.exclude_addresses,
            &config.exclude_addresses,
            &mut self.exclude_addresses,
        );
        self.confirm = take_opt_unless_given(self.given.confirm, config.confirm, self.confirm);
    }
}

/// Sets `field` to the configuration's ports, where the command line did not
/// give them and the configuration sets them.
fn take_ports_unless_given(given: bool, from_config: &Option<Vec<u16>>, field: &mut Option<Vec<u16>>)
    ensures
        final(field).deep_view() == unless_given_opt(
            given,
            from_config.deep_view(),
            old(field).deep_view(),
        ),
{
    if !given && from_config.is_some() {
        *field = clone_opt_ports(from_config);
    }
}

/// Sets `field` to the configuration's string, where the command line did
/// not give one and the configuration sets one.
fn take_string_unless_given(given: bool, from_config: &Option<String>, field: &mut Option<String>)
    ensures
        final(field).deep_view() == unless_given_opt(
            given,
            from_config.deep_view(),
            old(field).deep_view(),
        ),
{
    if !given && from_config.is_some() {
        *field = clone_opt_string(from_config);
    }
}

/// Sets `field` to the configuration's strings, where the command line did
/// not give them and the configuration sets them.
fn take_strings_unless_given(
    given: bool,
    from_config: &Option<Vec<String>>,
    field: &mut Option<Vec<String>>,
)
    ensures
        final(field).deep_view() == unless_given_opt(
            given,
            from_config.deep_view(),
            old(field).deep_view(),
        ),
{
    if !given && from_config.is_some() {
        *field = clone_opt_strings(from_config);
    }
}

/// The configuration's value, where the command line did not give one and
/// the configuration sets one; else the current value.
fn take_unless_given<T: Copy>(given: bool, from_config: Option<T>, current: T) -> (r: T)
    ensures
        r == unless_given(given, from_config, current),
{
    match from_config {
        Some(v) if !given => v,
        _ => current,
    }
}

/// The configuration's optional value, where the command line did not give
/// one and the configuration sets one; else the current value.
fn take_opt_unless_given<T: Copy>(given: bool, from_config: Option<T>, current: Option<T>) -> (r:
    Option<T>)
    ensures
        r == unless_given_opt(given, from_config, current),
{
    if !given && from_config.is_some() {
        from_config
    } else {
        current
    }
}

impl Default for Opts {
    /// Options that ignore the configuration file, with no addresses, no
    /// port selection and zero sizes.
    fn default() -> (opts: Self)
        ensures
            opts@ == (OptsView {
                addresses: Seq::empty(),
                ports: None,
                range: None,
                no_config: true,
                resolver: None,
                batch_size: 0,
                timeout: 0,
                tries: 0,
                ulimit: None,
                scan_order: ScanOrder::Serial,
                top: false,
                exclude_ports: None,
                exclude_addresses: None,
                udp: false,
                confirm: None,
                given: nothing_given(),
            }),
            opts.config_path is None,
    {
        let opts = Opts {
            addresses: Vec::new(),
            ports: None,
            range: None,
            batch_size: 0,
            timeout: 0,
            tries: 0,
            ulimit: None,
            resolver: None,
            scan_order: ScanOrder::Serial,
            no_config: true,
            top: false,
            config_path: None,
            exclude_ports: None,
            exclude_addresses: None,
            udp: false,
            confirm: None,
            given: GivenFlags::default(),
        };
        proof {
            assert(opts.addresses.deep_view() =~= Seq::<Seq<char>>::empty());
        }
        opts
    }
}

} // verus!

verus! {

/// The first merge step, field by field: each of addresses, batch size,
/// timeout, tries, scan order and UDP mode keeps its value where the
/// configuration leaves it out or the command line gave it, and takes the
/// configuration's value otherwise; every other option is left as it was.
pub proof fn lemma_merge_required_fields(o: OptsView, c: ConfigView)
    ensures
        c.addresses is None ==> spec_merge_required(o, c).addresses == o.addresses,
        o.given.addresses ==> spec_merge_required(o, c).addresses == o.addresses,
        !o.given.addresses && c.addresses is Some ==> spec_merge_required(o, c).addresses == c.addresses.unwrap(),
        c.batch_size is None ==> spec_merge_required(o, c).batch_size == o.batch_size,
        o.given.batch_size ==> spec_merge_required(o, c).batch_size == o.batch_size,
        !o.given.batch_size && c.batch_size is Some ==> spec_merge_required(o, c).batch_size == c.batch_size.unwrap(),
        c.timeout is None ==> spec_merge_required(o, c).timeout == o.timeout,
        o.given.timeout ==> spec_merge_required(o, c).timeout == o.timeout,
        !o.given.timeout && c.timeout is Some ==> spec_merge_required(o, c).timeout == c.timeout.unwrap(),
        c.tries is None ==> spec_merge_required(o, c).tries == o.tries,
        o.given.tries ==> spec_merge_required(o, c).tries == o.tries,
        !o.given.tries && c.tries is Some ==> spec_merge_required(o, c).tries == c.tries.unwrap(),
        c.scan_order is None ==> spec_merge_required(o, c).scan_order == o.scan_order,
        o.given.scan_order ==> spec_merge_required(o, c).scan_order == o.scan_order,
        !o.given.scan_order && c.scan_order is Some ==> spec_merge_required(o, c).scan_order == c.scan_order.unwrap(),
        c.udp is None ==> spec_merge_required(o, c).udp == o.udp,
        o.given.udp ==> spec_merge_required(o, c).udp == o.udp,
        !o.given.udp && c.udp is Some ==> spec_merge_required(o, c).udp == c.udp.unwrap(),
        spec_merge_required(o, c).ports == o.ports,
        spec_merge_required(o, c).range == o.range,
        spec_merge_required(o, c).no_config == o.no_config,
        spec_merge_required(o, c).resolver == o.resolver,
        spec_merge_required(o, c).ulimit == o.ulimit,
        spec_merge_required(o, c).top == o.top,
        spec_merge_required(o, c).exclude_ports == o.exclude_ports,
        spec_merge_required(o, c).exclude_addresses == o.exclude_addresses,
        spec_merge_required(o, c).confirm == o.confirm,
        spec_merge_required(o, c).given == o.given,
{
}

/// The second merge step, field by field: each of range, resolver, file
/// descriptor limit, excluded ports and addresses and confirm timeout keeps
/// its value where the configuration leaves it out or the command line gave
/// it, and takes the configuration's value otherwise; the ports change only
/// to the configuration's ports, in top-ports mode, where the command line
/// gave neither ports nor a range; every other option is left as it was.
pub proof fn lemma_merge_optional_fields(o: OptsView, c: ConfigView)
    ensures
        c.ports is None ==> spec_merge_optional(o, c).ports == o.ports,
        !o.top || o.given.ports || o.given.range ==> spec_merge_optional(o, c).ports == o.ports,
        o.top && !o.given.ports && !o.given.range && c.ports is Some ==> spec_merge_optional(o, c).ports == c.ports,
        c.range is None ==> spec_merge_optional(o, c).range == o.range,
        o.given.range ==> spec_merge_optional(o, c).range == o.range,
        !o.given.range && c.range is Some ==> spec_merge_optional(o, c).range == c.range,
        c.resolver is None ==> spec_merge_optional(o, c).resolver == o.resolver,
        o.given.resolver ==> spec_merge_optional(o, c).resolver == o.resolver,
        !o.given.resolver && c.resolver is Some ==> spec_merge_optional(o, c).resolver == c.resolver,
        c.ulimit is None ==> spec_merge_optional(o, c).ulimit == o.ulimit,
        o.given.ulimit ==> spec_merge_optional(o, c).ulimit == o.ulimit,
        !o.given.ulimit && c.ulimit is Some ==> spec_merge_optional(o, c).ulimit == c.ulimit,
        c.exclude_ports is None ==> spec_merge_optional(o, c).exclude_ports == o.exclude_ports,
        o.given.exclude_ports ==> spec_merge_optional(o, c).exclude_ports == o.exclude_ports,
        !o.given.exclude_ports && c.exclude_ports is Some ==> spec_merge_optional(o, c).exclude_ports == c.exclude_ports,
        c.exclude_addresses is None ==> spec_merge_optional(o, c).exclude_addresses == o.exclude_addresses,
        o.given.exclude_addresses ==> spec_merge_optional(o, c).exclude_addresses == o.exclude_addresses,
        !o.given.exclude_addresses && c.exclude_addresses is Some ==> spec_merge_optional(o, c).exclude_addresses == c.exclude_addresses,
        c.confirm is None ==> spec_merge_optional(o, c).confirm == o.confirm,
        o.given.confirm ==> spec_merge_optional(o, c).confirm == o.confirm,
        !o.given.confirm && c.confirm is Some ==> spec_merge_optional(o, c).confirm == c.confirm,
        spec_merge_optional(o, c).addresses == o.addresses,
        spec_merge_optional(o, c).no_config == o.no_config,
        spec_merge_optional(o, c).batch_size == o.batch_size,
        spec_merge_optional(o, c).timeout == o.timeout,
        spec_merge_optional(o, c).tries == o.tries,
        spec_merge_optional(o, c).scan_order == o.scan_order,
        spec_merge_optional(o, c).top == o.top,
        spec_merge_optional(o, c).udp == o.udp,
        spec_merge_optional(o, c).given == o.given,
{
}

/// A whole merge leaves every option that the configuration leaves out, and
/// every option that the command line gave, as it was.
pub proof fn lemma_merge_leaves_unset_and_given(o: OptsView, c: ConfigView)
    ensures
        c.addresses is None ==> spec_merge(o, c).addresses == o.addresses,
        o.given.addresses ==> spec_merge(o, c).addresses == o.addresses,
        c.batch_size is None ==> spec_merge(o, c).batch_size == o.batch_size,
        o.given.batch_size ==> spec_merge(o, c).batch_size == o.batch_size,
        c.timeout is None ==> spec_merge(o, c).timeout == o.timeout,
        o.given.timeout ==> spec_merge(o, c).timeout == o.timeout,
        c.tries is None ==> spec_merge(o, c).tries == o.tries,
        o.given.tries ==> spec_merge(o, c).tries == o.tries,
        c.scan_order is None ==> spec_merge(o, c).scan_order == o.scan_order,
        o.given.scan_order ==> spec_merge(o, c).scan_order == o.scan_order,
        c.udp is None ==> spec_merge(o, c).udp == o.udp,
        o.given.udp ==> spec_merge(o, c).udp == o.udp,
        c.range is None ==> spec_merge(o, c).range == o.range,
        o.given.range ==> spec_merge(o, c).range == o.range,
        c.resolver is None ==> spec_merge(o, c).resolver == o.resolver,
        o.given.resolver ==> spec_merge(o, c).resolver == o.resolver,
        c.ulimit is None ==> spec_merge(o, c).ulimit == o.ulimit,
        o.given.ulimit ==> spec_merge(o, c).ulimit == o.ulimit,
        c.exclude_ports is None ==> spec_merge(o, c).exclude_ports == o.exclude_ports,
        o.given.exclude_ports ==> spec_merge(o, c).exclude_ports == o.exclude_ports,
        c.exclude_addresses is None ==> spec_merge(o, c).exclude_addresses == o.exclude_addresses,
        o.given.exclude_addresses ==> spec_merge(o, c).exclude_addresses == o.exclude_addresses,
        c.confirm is None ==> spec_merge(o, c).confirm == o.confirm,
        o.given.confirm ==> spec_merge(o, c).confirm == o.confirm,
        c.ports is None ==> spec_merge(o, c).ports == o.ports,
        o.given.ports || o.given.range ==> spec_merge(o, c).ports == o.ports,
{
}

/// Reading changes only the port selection: every other option is the same
/// afterwards, the ports change only to the top 1000 ports (in top-ports
/// mode, with no selection given), and the range only to 1-65535 (outside
/// top-ports mode, with no selection given).
pub proof fn lemma_read_changes_only_the_selection(o: OptsView)
    ensures
        spec_read(o).addresses == o.addresses,
        spec_read(o).no_config == o.no_config,
        spec_read(o).resolver == o.resolver,
        spec_read(o).batch_size == o.batch_size,
        spec_read(o).timeout == o.timeout,
        spec_read(o).tries == o.tries,
        spec_read(o).ulimit == o.ulimit,
        spec_read(o).scan_order == o.scan_order,
        spec_read(o).top == o.top,
        spec_read(o).exclude_ports == o.exclude_ports,
        spec_read(o).exclude_addresses == o.exclude_addresses,
        spec_read(o).udp == o.udp,
        spec_read(o).confirm == o.confirm,
        spec_read(o).given == o.given,
        spec_read(o).ports == o.ports || (o.ports is None && o.range is None && o.top && spec_read(o).ports == Some(TOP_PORTS@)),
        spec_read(o).range == o.range || (o.ports is None && o.range is None && !o.top && spec_read(o).range == Some(PortRange { start: 1, end: 65535 })),
{
}

} // verus!
