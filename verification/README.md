# rtk_sync

Uploads RTK's local command-tracking events to a central server, one batch at
a time, keeping a checkpoint of what the server has acknowledged.

- `src/` is the verified library: where each setting comes from and which
  settings are refused (`config`), the machine ID (`machine`), turning RTK's
  database rows into upload events (`rtkdb`), one sync batch as a state machine
  whose steps move the checkpoint only on an acknowledged upload (`syncer`),
  the service unit files and commands (`service`), and self-update
  (`update`).  `text` and `env` hold the string and environment helpers they
  share.
- `app/` is the command-line program around it: argument parsing, the config
  and state files, SQLite, HTTP, processes and the service loop.
- `tests/` exercises the library on concrete values.
