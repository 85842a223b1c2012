# p2p_chat

A node of a peer-to-peer chat. Nodes find each other by multicast announcements, and each keeps a
connection to its nearest neighbour below and above, by the exclusive or of their 256-bit names.

`src/` is the library, verified with Verus:

- `word`, `hex`, `decimal`: 256-bit numbers, their distance, and the texts that write them
- `crypto`: hashes, keys and signatures
- `client`: clients, their equality, order and distance
- `neighbours`: which announced client is to become a neighbour
- `connections`: the connections to the neighbours
- `announce`, `link`, `server`: what to do on announcements, on a connection, and on requests
- `network`, `messages`: the node and what it sends

Functions marked `external_body` call outside crates; what their contracts claim is not proved.
`app/` is the program around the library: sockets, tasks, locks and serialization.
