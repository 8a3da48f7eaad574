# iced_matrix_client

A Matrix chat client built on iced and the Matrix Rust SDK, with its
decision-making written in Verus and proved against contracts.

- `src/` is the verified library:
  - `app.rs`: the application shell. It tracks which page is shown and which
    modal is open, and routes each message. It also holds the
    `FromOrPanic`/`IntoOrPanic` conversions out of wrapping message types.
  - `page/login.rs`: the login form state machine. `page/chat/`: the chat page
    state machine, the rendering of timeline lines, and room labels.
  - `modal/`: the settings and device verification modals.
  - `worker/`: what the background workers decide. This covers rendering
    timeline events into text, dropping repeated events, the answers to
    requests and the sliding sync loop steps.
  - `tasks.rs`: which joined rooms belong to a space.
  - `util.rs`: a value handed over once, identified by a key's hash.
  - `external.rs`: the outside items the library calls, with the contracts
    that it relies on.
- `app/` is the program around the library: the iced window and views, the
  network and disk work with the Matrix SDK, and the conversion of the SDK's
  events into the library's plain values.
- `tests/` runs the library on concrete values.
