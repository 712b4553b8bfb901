# fixtext

The library behind FixText, a Windows tray tool that rewrites the clipboard
(or the selected text) with a language model, Groq or Gemini.

- `src/` is the verified library: settings and prompt profiles and their
  checks, the keyboard shortcut's decisions, the request bodies and requests,
  reading the replies, the order of a rewrite (`flow`), UTF-16 and UTF-8
  text for the clipboard and the network, the API key lookup and the
  activity log. Every function carries a contract checked by Verus.
- `app/` is the Tauri program around it: windows, tray, Win32 clipboard,
  keyboard hook, registry, WinHTTP, files and serialisation.
- `tests/` runs the library on concrete values.
