# access_to_sql

Moves archive case records ("units") from an MS Access catalogue into an MS SQL
Server archive database. The list of fund/inventory pairs to move comes from a
text file, one pair per line, the fund number and the inventory number
separated by white space:

```text
Р-137	1
Р-137	4л
Р-489	1грф
```

Connection strings and the list's path are read from `config.toml`
(`access_odbc_connection`, `sql_server_odbc_connection`, `file_path`).

## Layout

- `src/` is the verified library (Verus):
  - `text.rs`: decimal text of integers, white-space words of a list line,
    joining and quoting of SQL values;
  - `numbering.rs`: splitting archive numbers into digits and suffix;
  - `guid.rs`: record identifiers and their text forms;
  - `clock.rs`: the clock and SQL timestamps;
  - `models.rs`: MS Access units and MS SQL Server unit records;
  - `sql.rs`: the SQL requests, the reading of their replies, the insert
    statements, and the choice of units not yet recorded;
  - `import.rs`: the import run as a state machine, one step per answered
    action;
  - `config.rs`: the settings.
- `app/` is the program: configuration file, logging, ODBC access, and the
  loop that performs the run's actions.
- `tests/` exercises the library on concrete values.
