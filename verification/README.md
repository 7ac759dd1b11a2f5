# bevy_iced

Runs iced user interfaces inside a bevy application.

- `src/` is the verified library (Verus): translation of a frame of bevy input
  into iced events (`input`), the keyboard modifiers read from bevy's held keys
  (`modifiers`), the choice of cursor (`cursor`), what displaying an element does
  for a draw and for an update (`context`), and the plugin's configuration
  (`plugin`).
- `app/` wires these into bevy's schedules, reads bevy's messages, converts
  between bevy, iced and the library's types, and drives iced's renderer.
- `tests/` runs the library on concrete inputs.
