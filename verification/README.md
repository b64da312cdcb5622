# launcher_core

The state and decision logic of a small Minecraft launcher front end, written
in Verus and verified.

- `src/loader.rs`: the loader choices of the instance form and the launcher's
  mod loaders, and the two mappings between them.
- `src/account.rs`: accounts, the rows of the account list and their modes.
- `src/instance.rs`: instances, the rows of the instance list, and the
  description of an instance to create.
- `src/state.rs`: the launcher state (accounts, current account, instances,
  instance rows), logins, account and instance creation, lookups, and the
  laws that relate these operations.
- `src/paths.rs`: the game directory on each operating system: `.minecraft`
  under the configuration directory on Windows and the data directory on
  Linux, the empty path elsewhere or where that directory is unknown.
- `app/`: a console front end that performs the authentication, version
  building and launching through `lighty-launcher` and feeds the results to
  the library.
