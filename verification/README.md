# llauncher

The backend of a Linux launcher for a Proton-run game, split in two:

- `src/` is the verified library (Verus). It holds the launcher's decisions as
  state machines and functions with exact contracts:
  - `download/manager.rs`: a full pack download session (version lookup with
    one retry for the full list, sizing, early disk-space refusal, one worker
    per pack while the download stays active, extraction only when not
    cancelled);
  - `download/worker.rs`: one pack file (MD5 check of a file on disk, resume
    after a partial file on `206 Partial Content`, streaming, final MD5 check);
  - `update.rs`: the per-file update when the engine files are current, the
    full download otherwise;
  - `commands.rs`, `play_session.rs`, `protons.rs`, `debug_info.rs`: the
    refusals, flags, exit bookkeeping, Proton list order and bug report text;
  - `text.rs`, `paths.rs`: the string and path functions they rest on;
  - `hashing.rs`: MD5 through the `md-5` crate, behind trusted wrappers.

  Each state machine takes an event and returns the actions to perform; the
  laws that hold across steps are public proof functions named `law_*`.
- `app/` is ordinary Rust: the Tauri commands, the drivers that perform the
  library's actions (HTTP, files, tasks, events), and serde copies of the
  library's data types.
- `tests/` runs the library on concrete values.
