# neoco

A command-line and terminal chat client for language models, with a bash
tool that the model may call, and the checks that keep that tool inside a
workspace. The library in `src/` holds the logic, with contracts proved by
Verus; `app/` is the program around it: arguments, files, environment,
processes, the terminal and the model's client.

Layout of `src/`:

- `config`, `cli`: the configuration (model groups, providers, API keys)
  and the choice of the model; the command line's errors.
- `chat`: what a chat needs to start, what each item of the model's
  response stream shows and adds to the reply, the history of turns.
- `events`, `events::message`: chat, interface and unified events; the
  messages that tool calls and tool results become.
- `render`, `renderer::cli`: the text and colors shown for each event, and
  the formatting of a command's result.
- `tools`, `tools::bash`: the bash tool (its invocation and the result of
  each way its process ends) and finding bash.
- `tools::sandbox` (whitelist, network whitelist, path checks) and
  `sandbox` (the workspace sandbox of bash commands, with its path
  resolution and shell checks).
- `tui`: the input pane, the chat pane and its layout of lines, the
  syntax highlighting of code blocks, the application's handling of
  terminal, interface and chat events.
- `agent`: an agent's chat state and the tree of agents with their queued
  messages.
- `text`, `path`, `json`, `errors`: text functions with their
  specifications, paths, JSON fields, error types.

Properties that span several calls are stated as proof functions named
`law_*` beside the functions they speak of.
