# ustunet

Async TCP and UDP streams over a user-space network stack.

- `src/` is the verified library. A stream is a reading and a writing half over
  one socket of the network stack; the library decides what each poll answers,
  what it does to the socket, which task is left to be woken and when the
  dispatch queue is told. `src/socket/` holds what is relied on of the network
  stack, `src/laws.rs` what holds across several calls.
- `app/` is ordinary Rust around it: locks, channels, the async traits and the
  tun device.
- `tests/` runs the library on sockets that talk over a loopback device.
