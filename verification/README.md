# kaze

Adaptive cache cleaning for Arch Linux, written in Verus.

- `src/` is the verified library: settings and their defaults (`config`),
  process matching (`detector`), command lines and exit handling
  (`executor`), notification text (`notifier`), the plugins and their
  cleaning dialogues (`plugins`), the text operations they rest on (`text`),
  and the properties that hold across them (`laws`).
- `app/` is the program: command line, configuration file, `/proc`,
  process spawning, notifications, logging and the daemon's timer.
- `tests/` exercises the library on concrete values.
