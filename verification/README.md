# snap

Snap sits in the tray, waits for a shortcut, captures the screen, and files the
annotated capture in an inbox: an image, and metadata that names it.

`src/` holds the rules, proved with Verus. They decide and compute; they touch
neither files nor windows. Work that alternates with the system is a function from
a phase and an event to the next phase, so every sequence of outcomes is covered:

- `instance`: the lock file that keeps other instances out
- `capture`: capturing the screen, handing the capture out as Base64
- `annotation`: filing an image and its metadata
- `overlay`: one overlay at a time
- `window`: what is told of the window in the foreground
- `tray`: whether to run, the menu, the icon
- `log`, `places`, `clock`: log lines, where files are, moments in UTC
- `text`, `utf16`: texts as sequences of characters
- `codec`, `json`: Base64 and JSON, as the crates `base64` and `serde_json` have them

What the rules take on trust stands at the items marked
`#[verifier::external_body]` or `assume_specification`, each with what it claims.

`app/` is the program around the rules: files, windows, the tray.
