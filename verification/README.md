# tiny_vsock

A small vsock (`AF_VSOCK`) library for hosts, virtual machines and enclaves, whose
decisions are verified with Verus.

- `src/` is the verified library: the send loop (`send.rs`), the receive loop
  (`receive.rs`), the connection retries with exponential backoff (`connect.rs`), addresses
  and the listen queue (`address.rs`), errors and transport outcomes (`error.rs`), and the
  law that a payload sent is the payload received (`round_trip.rs`), when the sender's
  transport takes each chunk whole and the payload is shorter than the receiver's cap. Each loop is a state
  machine: a driver performs the system call it asks for and hands back what was reported.
- `app/` holds the `Vsock` socket type, which drives those state machines with the
  `nix` system calls, and its `std::io::Read` / `Write` impls.
- `tests/` runs the state machines against scripted transports.
