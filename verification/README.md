# tradesnap

A service that captures TradingView charts with a headless Chromium and
serves them over HTTP (`GET /chart?ticker=..&interval=..`, `GET /`).

The library in `src/` is verified with Verus. It holds the service's
decisions (settings, intervals, addresses, cookies, browser flags, which
clipboard contents count, how a request is served and answered); the program
in `app/` performs the I/O that those decisions call for: the environment,
files, the browser, the clock and the HTTP server.

- `src/text.rs`: Unicode whitespace trimming, prefix/substring tests,
  decimal rendering, and the std conversions (`str::parse`,
  `str::to_lowercase`, `char::to_lowercase`) that the library relies on.
- `src/config.rs`: the settings, read from the variables of the
  environment with their defaults, and the treatment of `.env` failures.
- `src/scraper.rs`: interval mapping, chart addresses, session cookies,
  browser flags, which clipboard contents are accepted, and how a share link
  becomes a direct snapshot image link (through `regex`).
- `src/poll.rs`: how often the clipboard is read before giving up.
- `src/service.rs`: how one chart request is served (session check,
  replacement of a dead session, one capture whose failure is answered at
  once) and what it answers, including the gateway timeout.
- `app/main.rs`: environment and `.env` loading, the Chromium session
  (`headless_chrome`), and the `axum` server.
