# relay

A TCP/UDP relay that keeps a pool of connections to its remote end open in
advance, so that a client does not wait for a handshake.

- `src/` is the library: the relay's decisions, as verified Verus code on plain
  values. It holds no socket and reads no clock.
- `app/` is the program: it performs the system calls that the library asks for
  and hands the outcomes back.
- `tests/` runs the library on concrete values.

| module | what it decides |
| --- | --- |
| `config`, `overrides` | defaults, settings file, environment, command line, and the check of the result |
| `token` | which listener, socket or connection an event belongs to |
| `pump`, `conn`, `watch` | how bytes are moved, when a direction or a connection ends, and what its sockets are watched for |
| `conn_laws` | what holds of a connection over every sequence of events |
| `accept`, `slab`, `expiry` | where a client's connection comes from, its slot, and when it times out |
| `pool` | lifetimes, the search for a live connection, sweeping, rotation and refill |
| `udp` | what becomes of a datagram, and associations between clients and upstream sockets |
| `sock`, `epoll` | socket options, dead sockets, addresses and event masks |
| `log`, `text`, `time` | the rate-limited log, decimal text and spans of time |

What the library states of several functions at once stands in the public proof
functions whose names begin with `law_`.

Three small functions in `epoll` are trusted: they convert between the masks of
nix and plain truth values.
