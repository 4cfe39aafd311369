# whatsapp-desktop

The verified core of a Linux desktop shell around WhatsApp Web.

- `src/` is the library, verified with Verus: the settings model
  (`settings`), the menu and its event handling as a list of steps
  (`menu`), the tray menu (`tray`), the start-up plan and the close
  behaviour (`startup`), the issue-report text and `mailto:` link
  (`report`, `encoding`, which percent-encodes through the
  `percent_encoding` crate), and string helpers (`text`).
- `app/` is the Tauri program: it reads the settings store, the command line
  and the window system, asks the library what to do, and does it.
- `tests/` runs the library on concrete inputs.
