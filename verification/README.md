# netscope_scan

The verified core of a port scanner's option handling and result reporting.

- `src/range.rs`: the `start-end` port range flag and its parser.
- `src/input.rs`: the scan options, the configuration file's options, and
  how a configuration file is merged into the command-line options (values
  given on the command line win).
- `src/top_ports.rs`: the 1000 most commonly open TCP ports, for `--top`.
- `src/batch.rs`: the socket batch size under a file descriptor limit.
- `src/report.rs`: grouping the open sockets of a scan by host.

`app/` holds the program around the library: the command line (clap), the
TOML configuration file, the file descriptor limit, the scan itself and the
JSON output.
