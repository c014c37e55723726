# hoi4_ui

The panel logic of a grand-strategy game's user interface, verified with
Verus: what each panel (market, military, naval, politics, population,
research, province card and menu) shows and which command it gives for the
data it is handed, with the drawing kept apart.

- `src/` is the verified library. Each module states its behaviour as
  `requires` / `ensures` contracts over spec functions on sequences of
  characters, numbers and the library's own enums, and proves the laws that
  hold across calls (round trips, orderings, which commands a control can
  give). `src/text.rs` holds the text operations the panels share; its three
  trusted items call `str::to_lowercase`, `char::to_lowercase` and
  `String::push`.
- `app/` is the egui side: painting, the data types that carry
  floating-point figures, and the figures computed on them.
- `tests/` runs the library on concrete inputs.
