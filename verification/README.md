# rs_rrc_client

A client for RRC, a chat protocol over Reticulum links, whose decisions are verified with
[Verus](https://github.com/verus-lang/verus). It is meant for interactive clients, services
and bots.

The library in `src/` decides and does no input or output. It takes plain values in, and says
what is to be done as a list of effects:

- `client`, `command`, `request`: what is checked before anything is sent, and what is sent
- `actor`, `session`, `queue`: the sessions with the hubs and the queries that wait in them
- `inbound`, `notice`, `directory`: what an envelope does to the session that it came in
- `resource`, `delivery`: resources, held against their announcement
- `report`, `link`: how work that was asked for ended, and when it is tried again
- `wait`: when a wait for an event or for an answer is over
- `ordered_map`, `order`, `sequence`, `text`, `replica`: the collections and strings below all
  this
- `types`, `effect`: the data that goes in and out

Every function states what it returns or changes as an equation over the views of its
arguments. `soundness` states what holds of a client at all times, and `laws` what holds across
calls: that every envelope is handed on once, that lists are published and kept, that stale
members are dropped, that queries are answered in their order, that a lost session comes back
with its rooms, that nothing is taken in after a request to stop, and more.

Three things are taken on trust: that `sha2::Sha256::digest` depends on its bytes alone, that
`String::from_utf8` takes valid UTF-8 and nothing else, and that `String::push` appends.

`app/` is the asynchronous client around the library. It opens links with the Reticulum crates,
builds and reads envelopes with the protocol crate, carries out the effects, and reports back.
