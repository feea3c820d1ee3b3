# peerchat

A peer-to-peer terminal chat. `src/` is the verified library: the client's state
(`state`), the routing of what the user types to the screen (`controller`, `ui`),
the screens and their factory (`views`), and the floodsub side of a chat node,
kept in step with mDNS discoveries and expiries (`network`). `app/` holds the
program around it: the libp2p swarm and its event loop, the cursive terminal
screen, and the threads that join them.
