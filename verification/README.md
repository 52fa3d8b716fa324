# Family Finance

A local-first personal and family finance manager: wallets in VND, USD and
GOLD (never converted into one another), income, expenses, transfers,
investment holdings with weighted-average cost, reports, members and
families, PIN-guarded backups.

## Layout

- `src/` — the library, verified with Verus.
  - `decimal` — decimal amounts as plain parts; arithmetic and comparison are done by
    `rust_decimal` behind trusted wrappers.
  - `models` — wallets, transactions, holdings, categories, members,
    families, and the names their kinds are stored under.
  - `services` — what a transaction does to balances and positions
    (`transaction`, with the ledger laws in `ledger`), holdings, reports,
    the member directory.
  - `repository` — the queries to run and what their answers mean, month
    bounds, schema versions, PIN hashing.
  - `screens` — what the app's forms and lists decide.
  - `display`, `text`, `error` — formatting and text helpers, the error type.
- `tests/` — tests of the library on concrete values.
- `app/` — a command-line front end: SQLite storage, backup files, and
  the floating-point formatting of amounts.
