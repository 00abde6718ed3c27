# moneta_cli

A personal-finance command line (accounts, categories, credit cards and
their invoices, installment purchases, budgets, recurring transactions, CSV
import) whose domain rules are a library verified with Verus.

- `src/` — the verified library.
  - `models/` — value types (`NonEmptyString`, `PositiveAmount`, `DayOfMonth`,
    ...), calendar dates and decimal amounts over `chrono` and `rust_decimal`,
    and the rules of each entity: invoice periods and due dates, installment
    apportionment, recurrence schedules, budget periods, transaction guards,
    CSV row parsing and de-duplication.
  - `commands/` — the arguments of each command and how they become records.
  - `handlers/` — the decisions taken between storage steps (updates merged
    into stored rows, the plan of each imported row).
  - `config.rs` — how command-line settings and the configuration file merge.
- `app/` — the program: `clap` parsing, PostgreSQL through `sqlx`, the
  configuration file, logging and output. It calls the library for every
  decision.
- `tests/` — tests of the library.
