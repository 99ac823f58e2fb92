# socks5

A SOCKSv5 proxy server whose handshake is verified with Verus.

`src/` is the library. `client` holds the handshake itself, a state machine from
events to actions that never touches a socket; `wire`, `resolve`, `text` and
`report` are what it is made of. `laws`, `runs` and `requests` state what holds
of the protocol as a whole: that addresses survive the wire, what a client is
sent in any run, and which bytes lead to a connection. `window` says what is
relied on of `tokio_core::io::Window`.

`app/` is the server around it: sockets, the timer, name resolution and the
relaying of data, on `tokio-core`. It listens on `127.0.0.1:18080` unless an
address is given on the command line.
