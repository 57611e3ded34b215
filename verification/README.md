# mcman

A Minecraft server manager. The library under `src/` holds the rules of the tool, each
function proved against its contract with Verus:

- `server`, `servertype`, `launcher`, `downloadable`, `hooks`: what `server.toml` describes,
  how a server is installed and started, and which hooks run.
- `build_steps`, `lockfile`, `runner`, `hot_reload`: the decisions made while building,
  testing and developing a server.
- `import_url`, `markdown`, `mrpack`, `packwiz`, `sources`: importing sources from URLs,
  the markdown tables, modpacks, and the download sites.
- `strs`, `strmap`, `ordered`, `json`, `paths`: text, ordered maps, and the calls into
  outside crates, each behind a small trusted item.

`app/` is the command line around the library: it reads and writes files, asks the user,
talks to the network and runs the server. `tests/` runs the library on concrete values.
