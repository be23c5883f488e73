# cctalk

A ccTalk (coin, note and hopper bus) host library, verified with Verus.

## Layout

- `src/` — the verified library.
  - `message.rs`: 8-bit checksum and CRC-16 messages, their frames
    (`[dest, len, src, header, data.., chksum]`), parsing and encoding, and the
    laws that tie them together (round trips, the checksum making a frame sum
    to zero modulo 256).
  - `headers.rs`: the header byte and its named headers.
  - `errors.rs`: message and transaction errors, with their texts.
  - `interface.rs`: the host's transactions as state machines (`ReadPoll` for
    one read from the port, `Transfer` for send/echo/answer, `AddressScan`);
    the caller performs each action and reports what happened.
  - `device.rs`: device kinds and the `Probe` of a device.
  - `hvec.rs`, `crc.rs`, `text.rs`: the calls into `heapless`, `crc16` and
    std's UTF-8 decoding, with the contracts the library relies on.
- `app/` — the serial-port side: runs the state machines over
  `embedded-hal` serial ports and delays, and error types with
  `thiserror` derives.
- `tests/` — tests, including whole transactions against
  `embedded-hal-mock` serial mocks.
