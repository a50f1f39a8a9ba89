# rustctl

A terminal manager for systemd units. The library (`src/`, verified with
Verus) holds everything the program decides: reading `systemctl` output,
the invocations it makes, the state of the unit browser (filter tabs,
selection, flashed messages), what each key does, and the text and colours
of the tab strip, the unit list, the detail panel and the status bar.
`app/` is the terminal program around it: it runs
`systemctl`, reads the clock and the keyboard, and draws with ratatui.

- `src/text.rs`: whitespace, words, lines and trimming over `Seq<char>`.
- `src/systemd/`: the unit model, the parser of `list-units` output, the
  invocations and the readers of their output.
- `src/app/`: the browser state and the filter tabs.
- `src/event.rs`: the key bindings.
- `src/ui.rs`: glyphs, colours, tabs, list rows, titles, status bar and
  detail panel lines.
