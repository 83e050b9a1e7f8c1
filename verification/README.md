# lib — verified core of a dual-board keyboard/mouse switch

Two boards share one keyboard and mouse between two computers. This crate is
the logic of that firmware, written in Verus and proved against its contracts:

- `src/` — the verified library. Report descriptors and reports
  (`hid_parser`, `hid_report`, `hid_extract`, `report_extract`), pointer
  arithmetic and screen switching (`mouse`), keyboard state and hotkeys
  (`keyboard`, `hotkey_handlers`), inter-board packets and checksums
  (`packet`, `crc`, `msg_handlers`), pass-through of an upstream device and
  its SmartShift double-click (`passthrough`), the debug console and string
  descriptors (`cdc_console`), what the debug build logs of HID++ events,
  report descriptors and the device-side configuration (`diag`,
  `desc_dump`), and under `service/` the decisions that tie them to the
  hardware boundary.
- `src/hal.rs` — the hardware boundary as plain values: what the board
  reports in (time, readiness, received bytes) and a ledger of the
  operations the logic asks for. The ledger keeps every call in order
  (`calls`; only the link's receive cursor, which reads input, is left
  out), and beside it what each kind of call carried. Service contracts
  relate the state and the ledger before and after a call, so they fix
  the order and number of calls as well as their contents.
- `tests/` — the scenarios, run against the compiled library.
- `app/` — the glue a firmware build wraps around the library: the board's
  state in one place and the entry points the USB stacks and main loop call.
