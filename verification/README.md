# snap_pin

The logic of a screenshot-and-pin desktop tool, verified with Verus: a desktop shell
that keeps a resident capture overlay running and talks to it over a line protocol,
and an overlay that captures selections, pins them in windows and runs OCR and
translation on them.

- `src/` is the verified library: settings pages and their normalization, provider
  and language names, the overlay's command line and the command line it is started
  with, accelerators and shortcuts, the control protocol, the capture launch and the
  resident overlay's lifecycle as state machines, pin toolbars, OCR text handling and
  translation units, pixel conversion, model storage plans and the tray menu.
- `tests/` exercises the library on concrete values.
- `app/` holds what the library does not: file and network I/O, processes, serde
  copies of the settings page and of the wire commands, and the floating-point
  geometry of the overlay.

The desktop shell's message bus between its user interface and its core is held in the
library as a plain queue (`runtime::DesktopIpcBridge`): the message-envelope crate the
desktop shell is built around belongs to the same workspace as the shell and is not
available as a dependency, so its in-memory bus is not called. The workspace's core
service, platform, OCR, translation and model-registry crates are not available for the
same reason; `app/` names them where the program calls them, and the library models the
decisions around those calls with its own types.
