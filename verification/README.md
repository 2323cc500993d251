# memclean

A lightweight Windows memory cleaner (tray icon, usage bars, standard and
deep cleaning, scheduled cleaning that waits for full-screen applications).

The decisions and computations are a Verus-verified library; the program
around it talks to Windows.

## Layout

- `src/` — the verified library (`memclean`):
  - `config` — settings, defaults, clamping into range, byte-order mark.
  - `util`, `text` — UTF-8 / UTF-16 conversion, trimming, decimal digits.
  - `mem` — byte formatting, usage snapshots, the cleaning plans of each
    strength, which processes are trimmed, and the results built from the
    reports of executed steps.
  - `scheduler` — the automatic-cleaning schedule as a state machine: the
    worker loop hands in the time and answers, and is told what to do next.
  - `ui` — colours, labels and layout of the main window, tray icon and
    about dialog; decoding of the dialog's PNG images.
  - `startup` — command-line switches and the single-instance test.
- `tests/` — tests of the library.
- `app/` — the Windows program: Win32 windows and tray, native memory calls,
  the scheduler thread, reading and writing `%APPDATA%/memclean/config.json`.
  It reads the sponsor QR codes from an `image/` directory beside the
  executable.

Verify with Verus on `src/lib.rs`; laws of the library are the public
`law_*` proof functions.
