# btest-rs

A server for the MikroTik bandwidth-test protocol (`/tool bandwidth-test`), with its protocol
and its decisions verified by [Verus](https://github.com/verus-lang/verus).

## Layout

`src/` is the verified library:

- `wire`: integers as bytes, in both byte orders; the calls into `byteorder`
- `text`: numbers and flags as text
- `protocol`: commands, statistics and confirm messages
- `server`: configuration, the limit on open sessions, allocation of UDP ports
- `model`: a session as a state machine, in mathematical terms
- `session`: the session itself
- `laws`: what holds of every session, whatever happens to it
- `data`: the test data that the server sends

`app/` is the program around it: it accepts connections, reads, writes and waits. A session is
told what came of that and decides what to do.

## Protocol

1. The server greets the client with `01:00:00:00`.
2. The client sends a 16-byte command.
3. The server confirms with `01:xx:yy:00`, where `xx:yy` is a session token if the client asked
   for more than one connection and zero otherwise. A command that cannot be understood ends the
   session.
4. For a UDP test the server then sends its UDP port as two bytes, big-endian. The client listens
   256 ports above it. Datagrams start with a 4-byte big-endian sequence number.
5. During the test the server sends statistics every second: a 12-byte message with its number
   and the bytes received since the last one.

A session ends when the test has run for `--max-test-duration` or the client has sent nothing
over its TCP connection for `--control-timeout`.

Authentication and rate limits are not implemented.
