# twsapi

Decoding of the messages that Trader Workstation sends to its clients, verified with Verus.

A message is a text of fields, each ended by a NUL character. The first field is the number of the
kind of message. The library splits a message into its fields, interprets them as the protocol
version of the server says, and gives the events that the message tells, in order.

- `src/` is the verified library.
  - `messages`: the fields of a message.
  - `text`, `fields`, `number`: what stands in a field. A number with a fraction is kept as the
    text that writes it, together with the mark, if any, by which it says that it is not there.
  - `codes`, `server_versions`, `types`, `event`, `errors`: the vocabulary.
  - `ticks`, `depth`, `history`, `account`, `contracts`, `lookup`, `orders`, `news`, `session`:
    the kinds of messages. For each of them a specification says when it is complete and what it
    tells, and a function reads it.
  - `decoder`: from the number of a kind to what the message tells (`Decoder::interpret`, and
    `Decoder::try_interpret` and `Decoder::interpret_any`, which take any fields).
  - `run`: what a message means for the run of a decoder.
  - `schedule`: a specification-only model of the message loop and its threads in `app/`, in which
    every message is fed once. That the loop in `app/` follows the model is not proved.
  - `properties`: what holds of all kinds of messages.
- `app/` is ordinary Rust around it: the queue, the threads, the callbacks of the application, and
  the numbers in double precision.
- `tests/` runs the library on concrete messages.
