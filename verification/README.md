# shroud

A NetworkManager VPN supervisor with a firewall kill switch and a gateway
mode, written in Verus.

- `src/` is the verified library: the firewall rules the kill switch and
  the gateway issue, the parsers for the output of `ip`, `nmcli`,
  `getent` and the rule scripts, the supervisor's reconciliation with
  NetworkManager, the connect and reconnect state machines, the status and
  list answers, the icons' pixel shapes, and the lifecycle decisions
  (single-instance lock, shutdown, restart, autostart).
- `app/` is the program around it: it runs the commands, sleeps, talks to
  the desktop and holds the lock, and asks the library what to do next.
- `tests/` runs the library on concrete values.

Laws that span several functions are public proof functions named
`lemma_*` next to the functions they speak of.
