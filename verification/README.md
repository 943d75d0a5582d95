# watch_core

The logic of a wrist watch that looks for smart glasses (by their Bluetooth advertising) and for
drones (by their Remote Id over Wi-Fi), written in Verus: every function states what it does, and
all but the wrappers around outside crates are proved to do it. What the wrappers state of chrono,
ieee80211, trouble-host, bt-hci and embassy-time is trusted; each names the outside function and
says what is claimed of it.

- `src/` is the library. `calendar` is a model of the calendar; `clock` and `timekeeping` are the
  date and time; `settings`, `defaults` and `storage` are what is kept over a restart;
  `advertising` and `remote_id` recognise what is looked for; `scan`, `alert`, `touch`, `display`
  and `battery` are the tasks of the watch as state machines, and `latch` is a proof that three of
  them share; `ui` is what the settings pages hand over.
- `tests/` runs the library, with the crates that it calls.
- `app/` is the firmware around it. `app/board.rs` brings up the hardware and builds only for the
  chip, together with the drivers `axp2101`, `co5300`, `framebuffer` and `qspi_bus` and the Slint
  pages, which are kept elsewhere.
