# lsp_commands

The decisions behind an editor's language server commands, verified with Verus:
goto, symbols, diagnostics, code actions, signature help, hover, rename and the
selection of references.

A command reads a plain picture of the editor (`editor::Context`) and answers
with plain values: the requests to send, the layers to show, the message for the
status line. What has to wait for a server, the disk or the screen is a small
state machine (`jump::Jump`, `edits::EditRun`, `actions::CodeActionMenu`), which
hands out one step at a time and takes the outcome back.

- `src/` is the library. Every function states what it returns or changes, and
  the functions whose names begin with `law_` state what holds across several of
  them. Calls into `url` and the paths of the standard library are in `foreign.rs`;
  their contracts are taken on trust.
- `tests/` runs the library on concrete values.
- `app/` is the editor's side: it converts the values of the protocol, performs
  the steps, and asks the editor through the `Host` trait for what only the
  editor can do.
