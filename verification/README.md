# aliace

A command manager: a registry of shell commands and pipeline groups, driven
from an interactive terminal console or from the command line.

- `src/` is the verified library. It holds the registry model (`db`), lookup
  and search (`registry`), ranking by use (`ranking`), the console state
  (`app`) and its key handling as state transitions that name the outside
  action to perform (`tui`), the command-line subcommands and the run
  bookkeeping (`cli`), text primitives (`text`), and the properties that hold
  across operations (`laws`).
- `app/` is the program around it: reading and writing the JSON registry,
  drawing the console, running scripts in the shell and prompting.
- `tests/` exercises the library on concrete values.
