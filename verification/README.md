# scratch_cloud

A websocket server for shared project variables. A client opens a connection,
sends a handshake naming a project and a user, and is then told every variable
of the project's room. Each `set`/`create`, `rename` or `delete` it sends
changes the room, within the bounds of the configured policy; a stored value is
passed on to the other registered clients, and a refused change closes the
sender's connection.

- `src/` is the verified library: the policy checks (`config`), the messages
  (`protocol`), the closing codes and reasons (`status`), the rooms and the
  registry with the step of the server's loop (`server`, `server/memory`), the
  decisions of a client connection (`client`), the name-keyed table under the
  rooms (`table`), and the laws that hold over any sequence of steps (`laws`).
- `app/` is the program around it: configuration file, sockets, channels,
  locks, JSON and RON parsing, logging.
- `tests/` runs the library on concrete values.
