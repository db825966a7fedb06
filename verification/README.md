# klippo

A Klipper-style clipboard history manager for Linux (Wayland and X11), whose
core is verified with Verus.

- `src/` — the verified library: the history (deduplication by content hash,
  pinned-first then most-recent-first order, pruning to a maximum size), text
  previews and ids, search, regex actions with shell-free command preparation,
  the configuration and its string settings, capture backend selection and
  change detection, the D-Bus wire form, QR painting and the popup's layout
  rules. Calls into `regex`, `shell-words`, `blake3`, `image`, `qrcode` and
  `directories` go through small trusted wrappers whose contracts are stated
  next to them.
- `tests/` — tests of the library on concrete values.
- `app/` — the program around the library: the command line, the D-Bus
  service and client, the SQLite database the history is saved in, the TOML
  configuration file, the clipboard backends, the GTK popup and the GNOME setup.
