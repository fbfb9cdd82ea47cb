# mio_gui

Retained widget state for a GUI toolkit, with its behaviour proved by Verus.

`src/` holds the widgets' interactive state and what assistive technology sees of
it: selection, expansion, keyboard handling, text editing on grapheme boundaries,
calendar arithmetic, and the `Semantics` each widget reports. Every public function
carries a contract over a mathematical view of its type, and the laws that tie
several calls together (a step forward undone by a step back, a walk of days undone
by the walk back, three theme activations returning to the start, read-only fields
keeping their text) are stated as proof functions beside the code they speak of.

Text is broken into lines in `src/` too: `explicit_line_ranges` splits at line feeds,
and a `LineBreaker` walks each paragraph's grapheme clusters, asking its caller at
each step whether the candidate line fits, and ends lines after the last white space
that fitted. Radio groups (one selected radio per group, tab stops, arrow
navigation), caret moves to a line's edge and the pixel work of masks are verified
there as well.

`app/` holds only what needs floating point or a platform: the translation of
`winit` keyboard events and themes into the library's types, the width measurement
that drives a `LineBreaker`, which pixels a mask's shape covers, and the widgets whose
logic is floating point (diffs, dividers, loading indicators, the stack layout and
the logical geometry it uses). The geometry and painting that need text shaping
(widget sizes, positions, draw lists) are not part of either: they belong to the
renderer that embeds the library.

`tests/` exercises the library on concrete values.
