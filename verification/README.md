# ebe nuka

A chat peer on libp2p. Peers find each other through Kademlia, talk over WebRTC and
QUIC, and gossip on two topics: `ebe-nuka` for the chat and `ebe-nuka-file` for the
ids of files, which a peer then requests from whoever announced them.

The decisions of a peer are a Verus library, `src/`, whose functions are proved
against their contracts, all but the few that only make a call into another crate or
into std: the contracts of those are believed. The program around it, `app/`, holds the sockets, the files, the
clock and the user interface.

| module | what it holds |
| --- | --- |
| `settings` | ports, paths, topics, protocol names, limits |
| `address` | the addresses a peer listens on, advertises and files others under |
| `message` | what a message looks like on the wire, and its id |
| `state` | the messages sent and received |
| `commands` | the answers to the commands of the user |
| `identity`, `certificate` | what a peer keeps from one run to the next |
| `gossip`, `swarm` | the protocols of a peer and their settings |
| `node` | the start of a peer and its reaction to each event |
| `laws` | what holds of a peer as a whole |

The event loop is a function from an event to a list of actions, `Node::decide`. The
program turns what the swarm brings into an `Event`, and performs each `Action` in
order. A message that is not UTF-8, and a file announced without a source, are events
that a peer cannot take: for those there is no list.

Of libp2p and its neighbours the library believes what the doc comments on the
declared types, the `assume_specification` items and the `external_body` functions
say, and nothing else.
