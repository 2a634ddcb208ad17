# winr

Windows window inspection, input and automation-profile toolkit, with its decision logic
verified by Verus.

## Layout

- `src/`: the verified library. Every executable function carries a `requires`/`ensures`
  contract over spec functions and views, and Verus proves it.
  - `types`, `config`, `text`: the data model, configuration rules and text handling
    (selectors, errors, handle formatting and parsing, permissions).
  - `protocol`, `session`, `transport`, `host`, `agent`: the host/agent protocol, the session
    state machine, the transport model and the host runtime that drives it.
  - `backend`, `discovery`, `attachment`, `security`, `order`: capability catalogs and backend
    selection, target discovery and attachment, integrity checks, orderings.
  - `profile`, `desktop`, `keyboard`, `mcp`, `uia`, `human`: profile validation and the
    trigger loop's decisions, window picking, key and mouse input plans, MCP tool requests,
    UI Automation trees, and the text reports.
  - `perception`, `detection`, `tracking`, `live_frame`, `memory_schema`, `navigation`,
    `patrol_step`, `workflows`, `roblox`, `roblox_agent`, `observers`, `layered_input`: the
    observation model, pixel and template detectors, entity tracking, live frames from memory
    reads, navigation and patrol decisions, workflow plans and the injected agent's logic.
- `tests/`: tests of the library on concrete values.
- `app/`: the command-line program around the library: Win32 calls, capture, named pipes,
  the MCP server, serde/clap types and the loops that perform I/O between the library's
  decisions.

## Checking

The library verifies with Verus on `src/lib.rs`; the tests run with `cargo test`. `app/`
targets Windows only.
