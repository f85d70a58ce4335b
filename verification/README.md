# rustfbp

Ports and counted channels for flow-based programs, verified with Verus.

- `src/component.rs`: counted channels (`CountSender`, `CountReceiver`,
  `count_channel`), output ports (`OutputSender`, `OutputPortError`,
  `port_result`), option receivers (`OptionReceiver`), the `ComponentRun` and
  `IP` traits, and the laws about them.
- `src/mpsc_specs.rs`: the contracts taken on trust from `std::sync::mpsc` and
  `Arc`, and `TracedReceiver`, a receiving handle whose ghost record of the
  channel's answers moves only through its trusted `try_recv` and `recv`.
- `src/scheduler.rs`: the message a counted channel sends to the scheduler.
- `app/lib.rs`: the connection interfaces that pass handles as `Box<dyn Any>`,
  `downcast`, and the `component!` macro.
