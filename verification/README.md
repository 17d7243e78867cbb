# gateway_relay

Verified decision logic of the Gateway -> Circuit bridge relay.

- `src/` (Verus): chain constants (`chain`), the runtime calls the relay builds
  (`runtime`), encoding of command line calls and messages (`encode_call`,
  `encode_message`), the delivery and confirmation transactions of the message
  lane (`messages_lane`) and the parameters of the message lane loop
  (`lane_loop`).
- `app/`: the relay program: command line glue, conversion to and from the
  runtime types, SCALE decoding, signing, and the asynchronous relay loop.
- `tests/`: tests of the library on concrete values.
