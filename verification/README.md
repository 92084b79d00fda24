# vde_worktree

A Git worktree manager for people and coding agents: managed worktrees live under one
root (`.worktree/` by default), branch-to-worktree operations are idempotent, destructive
steps are refused unless asked for, and every command can answer in stable JSON.

The decisions of the tool are written in Verus and proved against their contracts.

## Layout

- `src/` is the verified library. Each module states what its functions return over
  spec functions and views, and proves it:
  - parsing and checks: `config`, `paths`, `text`, `misc`, `probes`, `git`, `gh`, `fzf`;
  - planning and applying mutations: `commands`, `create`, `change`, `rename`, `extract`,
    `adopt`, `adoption`, `finalize`, `locks`, `lock_apply`, `invoke`, `mutation_hooks`;
  - the command pipeline and its output: `pipeline`, `output`, `diagnostics`, `doctor`,
    `candidates`, `completion`, `exec`;
  - file placement and the shell completion install as state machines whose every step
    is decided by a verified function: `placement`, `commit`, `install`, `staging`.
  Processes, files and the clock are reached through small traits or a few trusted
  wrappers around `serde_json`, `time` and std's UTF-8 decoding, each with a doc comment
  that says what its contract claims.
- `app/` is ordinary Rust around the library: the process runner, the file-system
  drivers that carry out the steps the library decides, and the adapters that implement
  the library's traits.
- `tests/` runs the library with in-memory doubles for Git, gh, fzf and the file system.
