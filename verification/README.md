# balboa_spa

A library for the serial protocol of Balboa spa controllers (the RS485 bus between the
main board, the topside panels and the Wi-Fi module), written in Verus: every function
in `src/` carries a contract that Verus proves.

## Layout

- `src/messages/`: the wire format. Channels, unframed messages, the CRC-8 checksum,
  frame encoding and the two frame decoders, every payload type (status updates,
  settings, information, preferences, fault log, configuration) and `MessageType`, which
  ties a message kind to its payload. Round-trip lemmas state that decoding gives back
  what encoding wrote.
- `src/common/`: what clients share. The channel filter, transports, the message logger,
  the client's channel-assignment state machine, and the bookkeeping of a bus shared by
  several parties (who receives what, and what each delivery carried).
- `src/mock_mainboard/`: a simulated main board. Channel assignment and clear-to-send
  tracking, the timer schedule of each cycle, the simulated spa, and the board's answer
  to every message and tick.
- `src/protocol/`: a second simulated main board that keeps its device table in a
  bidirectional map.
- `src/tools/`: reading the answer of a Wi-Fi module to a discovery broadcast.
- `tests/`: tests run against the compiled library.
- `app/`: the parts that Verus does not see: threads, timers, sockets, logging, command-line
  arguments and the floating-point temperature conversions. They call the library and
  check its preconditions before each call.

Outside crates are reached through small trusted wrappers (`crc`, `byteorder`, `chrono`,
`bimap`, and the parts of std that Verus does not specify); each states in its doc
comment what it claims of the call.
