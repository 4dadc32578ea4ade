# test_server

Brings up a collaboration server on a database of its own, plays scenarios of
several connected editors against it, and takes it down again.

`src/` is the library. It decides what is to be done and what the outcome means,
and proves its contracts with Verus:

- `text`, `names`: the database's name, its address, the session secret and the
  statement that ends the connections to it
- `entropy`: the random number in the name
- `server`, `client`: the phases of a server and of a client, and the job of each
- `fleet`: what holds of servers that are started and taken down side by side
- `step`, `scenario`: the steps of a scenario, and the scenarios
- `check`, `session`: what a reply to a step means, and a scenario as it is played
- `view`: the view that shows nothing

`app/` does the work that the library asks for: PostgreSQL through `sqlx`, and the
editors through the crates of the `zed` workspace. `app/zed_editors.rs`, and
`app/zed_tests.rs`, which plays each scenario, build only within that workspace.
