# blast

BLAST (Big Lightning Automated Simulation Tool) runs simulated Lightning
networks made of node models, schedules events on them and drives payment
activity between their nodes.

- `src/` is the verified library (Verus): the event schedule, the model
  registry and the rules for talking to models, the payment-activity data and
  its checks, the text commands and key handling of the terminal front end,
  the texts and numbers the node models compute, and `laws.rs`, the
  properties that span several operations.
- `tests/` runs the library on concrete values.
- `app/` is the terminal program around the library: the ratatui front end,
  starting the model processes and calling their gRPC servers, bitcoind,
  saved simulations and the payment simulation. The CLN and LDK model
  servers themselves are not part of this crate; what they compute (node
  ids, reply texts, addresses, the open-channel registry) is in `src/`.
