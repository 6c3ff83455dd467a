# focuskeyd

A daemon that watches keyboards through evdev and, when a configured key
chord is pressed while a window of a configured application has focus (as
niri reports it), runs the configured shell commands.

- `src/` is the verified library: key and modifier names (`types`), string
  helpers (`text`), modifier state and key events (`event`), configuration
  validation (`config`), rule selection (`trigger`), the focused-window
  record (`niri`) and the choice of the configuration path (`paths`).
- `app/` is the program around it: reading and parsing the configuration
  file, the evdev device threads, the niri query, running commands, logging.
