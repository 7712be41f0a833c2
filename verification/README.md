# transaction_etl

Household-accounting ETL: Money Forward transaction exports (Shift_JIS CSV),
Amazon order-history exports (UTF-8 CSV) and YAML mapping / categorization
files are loaded into SQLite, categorized, and transferred to one ledger
(`transaction_history`).

- `src/` is the library, verified with Verus. It decides what is done and
  computes every value: which tables to prepare (as a list of steps), which
  files a directory listing selects, how CSV records and YAML documents
  become rows (with the exact error of the first bad entry), how dates and
  numbers are read, how query results are laid out as a table, and the
  transfer dialogue as a state machine (`utils::etl`) whose outcome law is
  proved (`lemma_etl_run_outcome`).
- `app/` is the program around it: it opens the database, reads the files,
  runs the planned steps, asks the user, and prints.
- `tests/` runs the library on concrete inputs.

The steps name their SQL scripts by path (for instance
`input/money_forward/sql/...`). The program reads them at run time from a
directory `src` under its working directory (`app/runner.rs`,
`SCRIPT_ROOT`); the scripts themselves are not part of this crate.
