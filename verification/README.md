# pop_desktop_widget

Settings pages of the Pop!_OS desktop: super key, top bar, window controls,
dock and workspaces.

- `src/` is the verified library. It holds every decision the pages take:
  which radio, switch or combo-box entry a stored GSettings value selects,
  and which value a change of the controls stores (`button_layout`,
  `favorites`, `radio`, `dock`, `widgets`, `pages`, `video`, with the text
  helpers in `text`). Round-trip properties of these mappings are proved as
  public proof functions beside them.
- `app/` builds the GTK widgets, binds them to GSettings and calls the
  library for each decision; it also exports the C interface used by GNOME
  Settings and the initial setup.
- `tests/` runs the library on concrete values.
