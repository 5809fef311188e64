# gui — the verified core of the Backup Sync desktop backend

`src/` is a Verus library: the decisions behind the desktop app's commands, each with a
contract that Verus proves. `app/` is the Tauri shell around it (commands, filesystem,
processes, IPC); it asks the library what to do and reports back what happened.

Modules of the library:

- `error`, `correlation`, `security`, `auth` — error envelopes with hints, correlation
  ids, the session lock and the guard on privileged commands.
- `config`, `safety`, `backup_run`, `restore`, `backups`, `access`, `status` — the
  command results and the checks made before and after each command.
- `destination` — destination preflight, storage-folder identity, promoting a secondary
  copy or moving a storage location (a state machine that pauses backups, verifies,
  switches, restarts and only then deletes the old folder, rolling back on failure).
- `hardening`, `diagnostics`, `logs`, `updates` — first-run checks (with the
  destination probe as a state machine), reports, log tails and the update check.
- `service` (with `linux`, `macos`, `windows`, `unsupported`) — the service-manager
  command sequences with their retry rules, process bookkeeping and the service status.
- `tray`, `ui_actions`, `single_instance` — tray texts and severity, window and tray
  reactions, and the single-instance lock retries.
- `text`, `lines` — string helpers with specifications.

The laws the library keeps are public proof functions next to the code they speak of
(for example `lemma_swap_keeps_ids_and_undoes_itself`, `lemma_quitting_is_final`,
`lemma_filtered_log_idempotent`), or `ensures` clauses of the functions themselves.
