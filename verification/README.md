# urahafu

The verified core of Urahafu, a utility that locks the keyboard, mouse and trackpad while you
wipe your screen and keyboard: a 3-2-1 countdown, then every input is blocked until you hold the
on-screen unlock button (or Escape and Return together) for two seconds, or until a fail-safe
deadline of 30, 60 or 90 seconds passes.

## Layout

- `src/` — the library, verified with Verus. Time is whole nanoseconds (`time`), pointer
  positions are hundredths of a point (`geometry`), so every state machine compares exact
  integers:
  - `session` — the cleaning session state machine (countdown, locked, unlocking, finished), its
    view for the renderer, and its wake-up schedule;
  - `hold_ring`, `combo`, `hint`, `countdown`, `failsafe`, `pixel_test` — the pieces it is built
    from;
  - `input` — what the input-blocking event tap captures and forwards;
  - `settings`, `login_item` — the settings file format and the login item's plist;
  - `i18n` — language matching for the user's preferred languages;
  - `canvas`, `color` — pixel buffers and colors;
  - `startup`, `window_command`, `controller` — the application's decisions between sessions.
- `tests/` — tests of the library.
- `app/` — the program around it: files, the environment, and the floating-point animation
  curves, layout and anti-aliased drawing.
