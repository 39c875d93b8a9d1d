# Don't Speak Voice for Herdr

A plugin runtime that shows Don't Speak inside Herdr: a label with the voice status
for each pane, and a popup that mirrors the dictation while it holds the
presentation.

- `src/` is the library, verified with Verus. It decides and computes, and touches no
  process, file, clock or terminal.
  - `model`: the status, what of it may be shown, and the label of each pane.
  - `ordered`: rows in the order of their keys.
  - `command`: the steps of a command with a time limit and bounded output.
  - `dontspeak`, `herdr`: the command lines of both programs, and their answers.
  - `dictation`: the popup and its lease, step by step.
  - `bridge`, `bridge_loop`: the labels, the probes and the popup's opening, step by
    step.
  - `instance`: the lock, the program's stamp, the log's size and the entry points.
  - `text`: characters, strings and numbers.
  - `laws`: what holds of the library as a whole.
- `tests/` runs the library.
- `app/` is the program: processes, pipes, JSON, files, time and the terminal.

Where work alternates with decisions, a state says what is to be done next
(`action`), the program does it, and a function of the library takes in what came of
it.
