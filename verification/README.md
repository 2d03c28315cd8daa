# ism_chat

Google Chat in a desktop window of its own, with a tray icon, popups, sounds and pasting that
works where the webview's does not.

- `src/` holds the rules, each with a contract that Verus proves: which links stay in the window
  (`links`), how a message is announced (`notifications`), the settings and how they are saved
  (`settings`), the windows and the tray menu (`windows`), icons and pasted images (`images`),
  uploads and downloads (`transfers`), base64 (`base64`) and text (`text`).
- `tests/` runs them, with the `url` and `image` crates behind them.
- `app/` is the program: windows, files, the clipboard, the player and the script in the page.

Not proved, but stated where they are called: parsing of URLs and queries (`url`), reading and
writing of image files (`image`), the name in a path (`Path::file_name`), and `String::push`.
