# awake

Keeps a computer from sleeping, on Linux, macOS and Windows.

- `src/` is the verified library: `text` (characters, lines, trimming,
  hexadecimal and decimal numbers, UTF-16), and one module per platform
  that decides what to do on each event, proved against its contract.
- `app/` performs those decisions: processes, signals, the terminal, and
  the Win32 and Cocoa calls, one module per platform.
- `tests/` runs the library on concrete inputs.
