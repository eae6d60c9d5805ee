# dsh-desktop (verified core)

The decision logic of a Tauri desktop shell for the DeepSeek Harness Web
surface, written in Verus and proved against its contracts.

- `src/text.rs`: Unicode whitespace and `split_whitespace` over characters.
- `src/web_url.rs`: parsed URLs as plain values, read through the `url` crate.
- `src/loopback.rs`: finding the loopback URL the runtime prints.
- `src/attach.rs`: the `--attach <url>` command line and the startup window.
- `src/links.rs`: keeping the app's origin in the shell, handing other links out.
- `src/harness.rs`: the harness command, the wait for its URL, shutdown and
  runtime-exit decisions.
- `src/startup.rs`: the one-shot show-then-focus startup sequence.

`app/` is the unverified shell around it: process spawning, the event loop,
Tauri windows, signals and threads.
