# uicontrol

A macOS screen-control agent: it shows a chat model the screen, lets the
model act through tools (mouse, keyboard, applications, clipboard), and keeps
a log of the conversation. `qcu` is its command line.

## Layout

- `src/` is the verified library (Verus). It holds the agent's decisions and
  text handling, each function with a contract:
  - `task_loop`: the task loop as a state machine (round limit, screenshots,
    shortcut context, replies, tool calls, how a task ends);
  - `stream`, `conversation`, `session`: the streamed chat reply, the messages
    sent to the model and the conversation log;
  - `screen_agent_v2`, `screen_agent`, `tools`, `tool_catalog`, `keyboard`,
    `mouse`: prompts, the tools and what their calls ask for and report;
  - `display`, `screenshot`, `stitch`: the stitched picture of all displays,
    from its layout to the PNG composed from the captures;
  - `shortcut`, `accessibility`, `app_manager`, `process`: menu and system
    shortcuts, the UI tree, applications and their processes;
  - `config`, `ai`, `document_parser`, `json`, `text`: settings, the model
    endpoint, images for the vision model, JSON values and text helpers.
  Laws that hold across calls are stated as public proof functions named
  `law_*`.
- `tests/` runs the library on concrete values.
- `app/` is the program around it: the command line, files, the network,
  screenshots, input devices, the accessibility interface and the MCP server.

## Crates not in Cargo.toml

`app/` also uses crates that are not in `Cargo.toml`: `accessibility` and
`accessibility-sys` (the accessibility interface), `core-foundation`,
`core-foundation-sys` and `core-graphics` (the display list), which only
build on macOS; `notify-rust` (notifications), left out for the size of its
dependency tree; and `rig-core` (the first screen agent), which needs a
newer compiler than the one this project builds with. Without them `app/`
does not compile; the library and its tests do not depend on them.
