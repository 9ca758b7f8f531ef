# confluence

Credential storage, host registry and command surface of `confluence`, a
command-line tool for Atlassian Confluence, written in Verus: the library
under `src/` carries `requires`/`ensures` contracts that Verus proves.

- `src/` — the verified library: strings and their lexicographic order
  (`text`), an ordered map keyed by host (`sorted_map`), the host registry
  and its login/logout/switch rules (`hosts`), secrets and credentials,
  the store interface and in-memory store (`store`), the keyring steps of
  the production store (`keyring_store`), the `Auth` façade, config paths,
  error messages, and the command surface (`commands`).
- `app/` — the `confluence` binary: argument parsing, the `hosts.toml`
  file (locking, atomic writes, TOML), the keyring-backed store, and
  platform config-directory discovery.
- `tests/` — tests of the library.
