# whatsapp_linux

The decision logic of a WhatsApp Web desktop wrapper (Tauri 2, WebKitGTK), verified with Verus.

- `src/unread.rs` reads the unread count from WhatsApp Web's window title.
- `src/navigation.rs` decides where a navigation goes (inside the app, to the system browser,
  nowhere) and which page is trusted with sensitive permissions; URLs are parsed by the `url`
  crate.
- `src/permission.rs` answers the web view's permission requests.
- `src/badge.rs` draws the unread badge on the icon that the `image` crate decodes and scales.
- `src/privacy.rs` holds the privacy-blur scripts; `src/state.rs` the shared application state
  and the small decisions around the window, tray and command line.
- `src/text.rs` holds the character-level helpers and the decimal writing of numbers.

`app/` is the Tauri program around the library: windows, tray, shortcuts, WebKitGTK signal
handlers and GTK dialogs. It expects the application icon at `icons/icon.png` and the Tauri
configuration that `tauri::generate_context!` reads.
