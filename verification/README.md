# theframework

The verified core of a small user interface framework.

- `src/model.rs`, `src/textops.rs`: the mathematical model of a text being edited (rows of
  characters cut into glyphs, cursor indices) and what each edit does to it.
- `src/chars.rs`: conversions between strings and character sequences, glyph counts and
  byte offsets; the calls into `unicode-segmentation` and on `char` stand here behind
  trusted wrappers.
- `src/textedit.rs`: `TheTextEditState`, the editing state of a text widget, each
  operation proved against the model.
- `src/widget.rs`, `src/widgets/`: identifiers, dimensions, events and the user interface
  state, and the widgets, whose event handling is proved against contracts that say what
  each event does to the widget and to the user interface state.
- `src/textarea.rs`: what a text area decides on each event (presses, drags, keys, the
  wheel, focus and hover), as a step from state and event to state and reply.
- `src/textlayout.rs`: the integer part of the text renderer: which laid-out rows are in
  view, and scrolling, clamped to the text and brought to the cursor.
- `src/flattext.rs`: the rows of a text seen as one sequence of characters, for text whose
  glyphs are single characters.
- `src/laws.rs`, `src/widgetlaws.rs`: properties that relate several operations.
- `app/`: saving and loading a text state as JSON, and the floating-point scrollbar
  geometry.
