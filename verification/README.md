# hermes_webui_desktop

A desktop shell for Hermes WebUI (Tauri), split in two:

- `src/` — the verified library, written in Verus. Every decision the shell
  makes lives here with a `requires`/`ensures` contract proved by Verus:
  connection flow and probe outcomes (`conn`, `health`), the SSH tunnel
  command line, readiness URL and failure hints (`tunnel`), preferences
  validation and stored values (`prefs`), session capture and restore
  (`session`), the strip-mode tab registry (`state`, `strip`), window titles,
  placement, ordering and navigation policy (`windows`), the injected page
  scripts (`bridge`), what pages send back (`events`), menus (`menu`), paste
  scripts (`paste`), update dialogs (`updater`), CSS color syntax (`theme`)
  and the string model they share (`text`, `weburl`).
  Laws that span several operations are public proof functions named
  `law_*`.
- `app/` — the application around it: `main`, Tauri windows and webviews,
  the store, the `ssh` child process, HTTP probes, clipboard, dialogs,
  floating-point color and zoom handling, and the macOS AppKit shims.
- `tests/` — executable tests of the library.

Calls into outside crates made by the library (`regex`, `url`,
`serde_json`, `base64`, and `str::to_lowercase` from std) go through small
trusted wrappers whose contracts say what the library relies on.
