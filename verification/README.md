# clauth_tui

The interface of an account manager for the terminal, as a verified library: eight tabs, the
dialogs over them, and everything they decide. Accounts are listed, switched, captured, chained
as fallbacks and edited; usage, token counts, the status feed and the integration's health are
shown.

## Layout

- `src/` is the library. State and rules come first: `model` (the stored configuration), `state`
  (the interface), `nav`, `dialogs`, `session`, `setup`, `chain`, `settings`, `events`, `usage`,
  `feed`, `plugin`. Outside work is data: the interface queues a `requests::Request`, and
  `settle` takes the answer. What is painted comes next: `paint` has spans and lines, `layout`,
  `figures`, `clock`, `wrapping` and `modal_box` the parts, and the `*_view` modules, `chrome`,
  `footer`, `help`, `delegates` and `picker` the panes.
- `app/` is the front: the terminal, the clock, threads, and the numbers that are not whole. It
  performs the requests and paints the lines.
- `tests/` runs the library on concrete values.

## What is proved

Every function states its result exactly. A function on the interface says what the state is
afterwards, as a function of the state before, queued requests included; a function that paints
says which spans it returns. The public `proof fn`s state what holds across functions: that a
cursor stays in its list, that a quit takes two presses, that an unsaved login blocks a switch,
that secrets stay masked, that wrapped lines fit and lose nothing.

Five outside functions are trusted, each behind a small function with a doc comment that says
what is taken from it: `chrono`'s local time, `ratatui`'s width of a span, `serde_json`'s quoting
of a string, and `str::to_uppercase` and `str::to_lowercase`. `String::push` is given a
specification as well.
