# adoctl

`adoctl` is a command-line tool for administering Azure DevOps: users and
their access levels, projects and their group memberships, agent pools,
agents and job requests. Its messages are in Traditional Chinese.

## Layout

- `src/` is the library, verified with Verus. It holds every decision the
  tool makes: how `--org` names an organization, where a credential comes
  from and which `Authorization` header it gives, when a cached token is
  still good, how device-code polling proceeds, which request each command
  sends (paths, query pairs, JSON-patch bodies), how the paged lists are read
  to the end, how users, projects and pools are filtered and looked up, what
  the tables and messages look like, and what exit code each error has.
  Calls into `url`, `base64` and `serde_json` that compute on plain values
  stand behind small trusted wrappers whose contracts name what they return.
- `tests/` runs the library on concrete inputs.
- `app/` is the executable: command-line parsing with `clap`, HTTP with
  `reqwest`, the OS credential store with `keyring`, prompts, the browser,
  and the `serde` shapes of the REST API. It hands the library plain values
  and sends what the library decides.
