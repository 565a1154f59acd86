# bp3d_net

Networking building blocks for BP3D software: message based local IPC, TCP
clients and servers for long-running connections, UDP clients and servers,
and a C interface to the IPC layer.

- `src/` is the verified core, checked with Verus. It holds the IPC message
  buffer and the datagram protocol of an IPC link (framing, hellos,
  keep-alives, close, silence detection), the admission of clients by a TCP
  server and the addressing of its messages, the steps of connection tasks,
  the builders of every client and server, and the decisions of the C
  interface. Contracts and laws (round trip of a message through a link,
  unique network ids, client limit, silence tolerance) are stated and proved
  there.
- `app/` runs the sockets, tasks and channels on tokio and exposes the C
  interface; every decision it takes is a call into `src/`.
- `tests/` exercises the verified core on concrete values.
