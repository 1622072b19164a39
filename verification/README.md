# libibus-rs

A client library for IBus, the Intelligent Input Bus, whose logic is verified
with Verus.

- `src/` is the library. Each function has a `requires`/`ensures` contract
  over a mathematical model (`Seq`, `Map`, views of each type), and the
  properties that span functions are proof functions named `law_*`:
  - `gvalue`, `attr`, `text`, `lookup_table`, `prop`, `component`: the data
    model and its IBusSerializable wire encoding (`(class, {}, fields...)`
    structures), with decode-after-encode laws;
  - `lookup_table`: candidate paging and cursor movement;
  - `prop`: property lists, lookup and update;
  - `key`, `input_context`: key events, modifier, capability and hint flags;
  - `xml`: the component XML document that `ibus-daemon` reads;
  - `address`: the IBus address file and the D-Bus address it names;
  - `config`, `engine`, `factory`: what the D-Bus plumbing reads and names;
  - `demo`: a demonstration engine (Japanese/English) as a state machine
    whose handlers return the requests they make of the daemon.
- `app/` is the program around it: the D-Bus proxies and objects (zbus),
  the address file on disk, the conversion between wire values and D-Bus
  values, and the demonstration engine's `main`.
- `tests/` runs the library on concrete values.

What Verus takes on trust is marked `#[verifier::external_body]`: the XML
writer of `quick-xml`, and `String::push`, `String::pop` and
`char::from_u32` from std.
