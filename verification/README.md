# admin_powershell_mcp

A broker that runs a whitelisted set of PowerShell commands with administrator
rights on Windows, and an MCP server that offers it as tools. They talk JSON
over a named pipe.

- `src/` is the library: what the broker and the client decide, written and
  proved in Verus.
  - `text`, `normalize`, `wide`: texts, the normal form of a command, UTF-16
  - `policy`, `whitelist`: limits, patterns, the built-in list
  - `protocol`, `error`, `output`, `broker`: requests and their answers, step by
    step
  - `pipe`, `client`: messages on the pipe, and reaching the broker
  - `limiter`, `service`, `log`: permits, the server, the Windows service, and
    what is logged
- `app/` is the program: it does the input and output that the library asks for.
  It is installed under two names, `admin-broker` and `admin-mcp-server`. What
  only builds on Windows stands in `app/win/`.
- `tests/` runs the library.
