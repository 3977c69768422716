# atelier

The verified core of a terminal workspace for the T language: an editor,
a REPL, a variables table, a terminal and an assistant side by side, with
a pipeline diagram, a plot viewer and a transcript of what was sent to the
REPL.

- `src/` is the library, verified with Verus: key handling as a state
  machine from state and key to next state and requests for the panes
  (`event`), the workspace state (`app`), where panes go on screen
  (`layout`), the panes' models (`vars`, `transcript`, `tabs`, `llm`,
  `diagram`, `plot`, `pty`), the file tree listing (`filetree`), the
  variables file format (`csv`), the assistant's context (`context`),
  settings and recent projects (`config`), start-up choices (`launch`) and
  the properties that hold across operations (`laws`).
- `app/` is the program around it: the terminal, the processes, the files,
  drawing with ratatui, and carrying out the requests the library returns.
- `tests/` runs the library on concrete values.
