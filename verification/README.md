# messenger

The verified core of a small desktop wrapper around Facebook Messenger.

- `src/` is the library, verified with Verus:
  - `navigation`: which URLs stay in the app window (Messenger and Facebook
    domains and their subdomains, the login captcha, the app's own splash page,
    inline content), unwrapping of Facebook's outbound-link redirector, and the
    decisions taken when a page asks for a new window or finishes loading;
  - `url_model`: the parts of a parsed URL the rules read, parsed by the `url` crate;
  - `json` and `script`: the script injected into every page, with the
    stylesheet embedded as a JSON string literal that cannot break out;
  - `shell`: start page, user agent, menu commands, dock badge;
  - `laws`: properties of the routing rules proved for every URL;
  - `text`: character-level string predicates.
- `tests/` runs the library on concrete URLs.
- `app/` is the Tauri shell (window, menu, IPC commands, zoom persistence),
  which carries out the library's decisions. It compiles in `custom.css` from
  the crate root and needs `tauri` and `tauri-plugin-opener`.
