# netstack

TCP and UDP sockets and raw IP packets on top of lwIP, without the network stack of
the operating system. The logic of the sockets is verified with Verus.

- `src/` is the verified library. lwIP is not called from it: each function takes what
  lwIP answered and says which call comes next, which buffer is to be freed, what goes
  to the reader and what the caller is told. Received data, accepted connections,
  datagrams and outgoing packets travel through the channels of `tokio`, whose
  contracts stand in `src/sync.rs`.
- `app/` holds the sockets as a program uses them: it makes the calls into lwIP, holds
  the lock around them, awaits, and implements the traits of `tokio` and std.
- `extras/lwip_shim.c` reads and writes the fields of lwIP's structures for `app/`.
- `tests/` runs the library against the real channels.

| module | content |
| --- | --- |
| `stack` | IP packets in and out |
| `tcp_listener` | listening and accepting |
| `connect` | opening a connection, step by step |
| `tcp_stream`, `tcp_read`, `tcp_write` | connections and their halves |
| `tcp_args` | the callbacks of a connection and what they work on |
| `read_item`, `pbuf` | received buffers |
| `udp` | UDP sockets |
| `calls` | what is registered with a control block, and what is left of it |
| `sync` | the channels |
| `addr`, `error` | addresses and errors |

Some behaviour to know of:

- A read writes from the front of the reader's buffer, also where a part of it is
  filled already. It delivers the data in order to a buffer that is empty.
- lwIP takes lengths of 16 bits. A longer packet or datagram, and a write into more
  room than that, is cut to the rest modulo 65536.
- Received data beyond what the queue of a connection holds is lost, and its buffer is
  not freed.
- The state of an accepted connection is announced to nobody and stays as it is; the
  end of such a connection reaches its reader through the queue.
