# csf

The logic of a command-line client for a cloud service fabric (volumes, networks,
nodes, the agent registry, workloads, events and control-plane updates), written in
Verus.

- `src/` is the verified library. For each command it states exactly which request
  goes to the server (`request`), and which lines show the server's answer
  (`render`), including the table layout (`display::Table::render`), status
  colours, number formatting, byte-indexed truncation of ids and times, the login,
  logout and status flows, and the update plan.
- `app/` is the program around it: argument parsing, HTTP, JSON, prompts,
  spinners, colours on the terminal, the settings file, and the fractional
  gauges.
- `tests/` runs the library on concrete values.
