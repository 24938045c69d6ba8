# oxidizer_firewall

The provisioning logic of the RustyKey(R) nftables firewall, verified with
Verus: the rules each host gets and the order they are installed in, the
netdev GeoIP ruleset, the order of a provisioning run and its safety valve
(in test mode an `at` job that flushes the ruleset again is armed before
anything is changed, and a lost SSH session triggers an immediate rollback),
the countdown and the country menu, and the reading of what `at`, `atq`,
`ip`, `hostname` and `ss` print.

- `src/` — the verified library. `lib.rs` holds the run's state machine
  (`run`, `transition`) and its laws; the other modules hold the rules
  (`firewall`, `geoip`), the readers of command output (`network`,
  `countdown`, `session`, `diagnostics`), the menu (`selector`), the command
  line (`cli`), console styles (`logging`) and the text primitives they
  share (`text`).
- `app/` — the `fw` binary: runs the commands, the terminal and the files,
  and feeds their results to the state machine.
- `tests/` — tests of the library on concrete values.
