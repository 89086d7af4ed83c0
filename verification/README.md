# keytap

Cross-platform, observe-only global keyboard taps, with a verified core.

- `src/` is the library, proved against its contracts: the physical key vocabulary
  (`key`), events (`event`), errors (`error`), tap configuration (`tap`),
  the chord matcher state machine and its laws (`chord`), and for each
  platform the scancode table and the rules that turn a raw OS report into
  an event (`platform::{linux, macos, windows}`).
- `app/` is the operating-system side: the evdev, CGEventTap and
  low-level-hook listeners, their threads and channels, the `Tap` and
  `ChordMatcher` handles, an error type with `Display`, and serde forms of
  `Key` and `RawCode`. It hands every raw report to the library to decide
  what it means.
- `tests/` runs the library on concrete inputs.
