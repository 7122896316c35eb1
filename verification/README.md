# withgenie_setup

The verified core of a desktop setup checker for beginner students: it checks
Node.js, npm, pnpm, Git, the GitHub and Vercel CLIs and the Windows/macOS
platform tools before a class, never asks for a password, runs only
allowlisted commands, and hands the instructor a report with sensitive values
masked.

## Layout

- `src/` — the library, verified with Verus.
  - `catalog.rs` — the allowlist of recipes and its mathematical model.
  - `commands.rs` — command labels, verification targets, login flows.
  - `diagnostics.rs` — reading a command's output into a check status; the
    automatic sweep; diagnostic requests.
  - `execution.rs` — approved actions: admission, planned outcomes, the
    install state machine and its verification, login launches.
  - `launch.rs` — which process starts a program or a login terminal.
  - `scripts.rs` — quoting for `cmd.exe`, POSIX shells and AppleScript, with
    round-trip proofs.
  - `report.rs` — the readiness summary, health report and handoff packet.
  - `plan.rs` — the setup plan shown to the student.
  - `redaction.rs` — masking rules applied through the `regex` crate.
  - `text.rs` — trimming, lines, search and joining over `Seq<char>`.
  - `laws.rs` — properties of the allowlist as a whole.
- `tests/` — tests on concrete values.
- `app/` — the Tauri shell: commands, process execution, serde shapes.
