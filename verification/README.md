# switch_bt_ws

A bridge that lets a browser drive an emulated Nintendo Switch Pro Controller
over USB Bluetooth dongles, one worker process per dongle.

- `src/` — the verified library (Verus): the Web Gamepad to Switch button
  mapping, the browser/server/worker messages and their translations, the
  controller table, the worker's command line, its command, status and pairing
  decisions, the driver package names, scripts and device listing, and the
  HTTP answers.
- `app/` — the program around it: the HTTP/WebSocket server, the worker
  processes and their pipes, the BTStack bindings, the PowerShell calls and the
  floating-point stick conversion.
- `tests/` — tests of the library.
