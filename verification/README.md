# splitwise_cli

A command line client for the Splitwise API (`splitwise users me`,
`splitwise expenses create --cost 10 --share user_id=1,paid_share=10`, ...),
written as a Verus-verified library and a thin binary around it.

## Layout

- `src/` — the verified library. Every function carries a `requires`/`ensures`
  contract that Verus proves:
  - `config` — precedence of command line, environment and config file;
  - `operations` — the table of API operations and the soft-failure checks
    applied to 200 responses;
  - `commands/` — what call each subcommand makes, typed flags merged over
    `--body`, the `key=value` spec reader;
  - `client` — URL and query building, response body reading, request and
    semantic failures;
  - `output` — table, JSON and YAML rendering;
  - `json`, `text` — the JSON model and the string routines the rest uses;
  - `laws` — proved properties that span several functions.
- `app/` — the binary: argument parsing with `clap`, reading the environment
  and files, the HTTP transport with `reqwest`, printing.
- `tests/` — tests of the library on concrete values.

Calls into `serde_json`, `serde_yaml`, `http` and `comfy-table` are made from the
library through small trusted wrappers marked `#[verifier::external_body]`;
their doc comments say what each contract claims of the outside code.

## Exit codes

`0` on success, `2` when Splitwise reports a failure inside a 200 response,
`1` for everything else.
