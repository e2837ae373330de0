# mqtt_sn

An MQTT-SN gateway and client, with the date and time helpers they use, written in Verus.

- `src/` is the verified library:
  - `packets`, `msg_type`, `state`: the MQTT-SN messages, their byte encodings (each with a
    proof that reading back what was written gives the message again) and message codes;
  - `topics`, `transfer`: the topic registry, the subscriber registry and what one datagram's
    handling may change;
  - `guards`, `gateway`, `client_machine`: the checks run on each message and the gateway's and
    the client's state machines, with laws about their transitions and about
    subscribe / publish / unsubscribe;
  - `client`, `con_ack`, `message_db`: building a client's datagrams and reading a gateway's
    answers, and the encoding of stored messages;
  - `duration`, `calendar`, `time_error`, `macro_input`: a signed nanosecond duration, Gregorian
    calendar arithmetic, and the token readers of the date and time literal macros;
  - `log_config`: a logger's configuration and its builder;
  - `cookie`: hexadecimal cookies of DTLS test settings;
  - `buffer`, `text`: the contracts given to `bytes::BytesMut` and to UTF-8 decoding.
- `tests/` runs the library on concrete values.
- `app/` is the broker and client programs: sockets, the on-disk stores, logging and the event
  loops, calling the library for every decision.
