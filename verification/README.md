# Odin for Zed

Odin language support for the Zed editor: labels for completions and symbols, the search for the
language server `ols`, the search for the CodeLLDB debug adapter, and the configuration of debug
sessions.

- `src/` is the library, verified with Verus. It decides and computes; it does no input or output.
  - `labels` labels completions and symbols.
  - `ols` and `codelldb` are the searches for a binary. Each is a step function: a step says what
    has to be done next, the reply says what came of it. `install` holds what they share,
    `platform` how things are named on each platform, `settings` what the user's settings say.
  - `debug` turns a debug session into an adapter's configuration, `adapter` starts the adapter
    with it, `locator` turns a task into a debug session, and `formatter` makes the command that
    registers the LLDB formatters.
  - `json` says what `serde_json` does, `text` holds searches in texts.
- `app/` is the extension itself: it talks to the editor and to the file system, and asks the
  library what to do. It is built with the text of the formatter script in the environment variable
  `ODIN_LLDB_SCRIPT`.
- `tests/` holds the library's tests.
