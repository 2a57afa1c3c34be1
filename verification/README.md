# tokio-icmp-echo

An asynchronous ICMP pinging library. It pings over datagram sockets, which
needs no privileges, or over raw sockets.

The engine, under `src/`, is written and proved in Verus: it makes requests,
recognises replies, keeps track of what waits for a reply, and decides what each
poll of a ping, a stream or a socket comes to. It does no input or output. It
draws identifiers and tokens at random, reads the clock, and makes the one-shot
channels through which replies reach their pings.

The crate under `app/` puts the engine on an event loop: it opens the sockets,
sends and receives, sleeps, and shares one engine among tasks behind a lock.

| module     | content                                                        |
|------------|----------------------------------------------------------------|
| `packet`   | ICMP echo messages, their checksum, the IPv4 header            |
| `state`    | what waits for a reply, by token                               |
| `ping`     | pingers, pings, chains and streams of pings                    |
| `receiver` | what is done with what a socket receives                       |
| `socket`   | which sockets there are, and how sending and receiving go on   |
| `time`     | points and spans of time, the clock                            |
| `random`   | identifiers and tokens                                         |
| `channel`  | one-shot channels                                              |
| `laws`     | what holds of the parts taken together                         |
