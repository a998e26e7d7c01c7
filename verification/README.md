# quasar

The logic of the Quasar Solana framework's tooling, verified with Verus:

- `src/options.rs`, `src/init.rs`, `src/templates.rs`, `src/scaffold.rs`,
  `src/project.rs`, `src/keypair.rs`, `src/git.rs`: what `quasar init`
  decides and writes — the choices and their defaults, the saved
  preferences, every generated file, the program keypair, the git setup.
- `src/test_runner.rs`: how `quasar test` picks and runs the test tool.
- `src/error_code.rs`, `src/instruction.rs`, `src/accounts.rs`: the plans
  behind the `#[error_code]`, `#[instruction]` and `#[derive(Accounts)]`
  macros.
- `src/idl_state.rs`: reading state accounts, their discriminators and
  seeds for the IDL.
- `src/banner.rs`, `src/style.rs`, `src/profile.rs`, `src/text.rs`: the
  banner's text, terminal styling, the profile summary, and string helpers.

`app/` is the command line around it: prompts, files, processes, the token
side of the macros, and what needs floating point.
