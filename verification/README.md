# mcaptcha

The logic of the mCaptcha server as a verified Verus library, with the server
around it.

- `src/` — the library, verified by Verus:
  - `routes`: the settings routes and their sitemap;
  - `pow`: proof-of-work submissions and what follows an accepted one;
  - `db`: the values that the MariaDB queries bind and the conversion of the
    rows they return, with round-trip laws for levels, traffic patterns,
    timings and paging;
  - `errors`: database errors and how query failures are reported;
  - `max_nonce`: the machine that reads (and, if needed, starts) the tracked
    nonce of a level, with its run laws;
  - `pages`: the data of the settings and sitekey pages;
  - `system`: captcha system settings, worker count and pseudo IDs.
- `tests/`: tests of the library.
- `app/`: the MariaDB adapter (sqlx), the captcha system (libmcaptcha), the
  app data and the HTTP handlers (actix-web).
