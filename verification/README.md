# ui

Verified state and decision logic of a handful of GUI components, written in
Verus, with a thin GPUI layer in `app/`.

`src/` (verified):

- `position` — text positions and their line-then-column order.
- `editor` — the LSP and popover state of a text input without language-server support.
- `rating`, `rating_story` — star rating state: value limited to the number of
  stars, change events, hover, clicks that fill or clear stars, the star list,
  the `value/max` label; the showcase's plus, minus and size buttons.
- `label`, `loading_button`, `button`, `size` — builders of a label and of a
  loading button, and what the loading button hands to the button it draws.
- `input_echo` — the text that an echoing input shows.
- `theme` — the Ocean Sunset theme configurations.
- `text` — decimal rendering of numbers.

`app/` holds the GPUI entities and elements that emit the library's events and
draw its decisions, and conversions to LSP positions and theme JSON.
