# foreign_network

A public server relays the traffic of networks that are not its own. This
library decides for it, and Verus proves that the decisions are those that its
contracts state:

- whether a connection is let into the virtual network that its peer asks for,
  by the list of relayed networks and by the permissions kept in a MySQL
  database (`admission`, `conversation`, `verdict`);
- what is remembered of the networks and of their peers, and how that follows
  what happens in them (`data`, `events`, `manager`, `laws`, `history`);
- where each packet of a foreign network goes, and what it adds to the network's
  traffic (`packet`);
- what the node shows of itself in such a network, how its procedure calls
  travel there, and which peers its routing sees (`context`, `rpc`, `route`);
- the list of the networks that are served (`listing`).

`tables` holds what is believed without proof: the maps of the `dashmap` crate
and the clock.

`app/` holds what runs the decisions: the statements sent through `sqlx`, the
channels and tasks of `tokio`, and the traits through which the surrounding
program provides its connections, peer maps and routing.
