# gnirehtet

Reverse tethering over adb: an Android device uses the network of the machine
that it is attached to. The client on the device sends raw IP packets through an
`adb reverse` tunnel; the relay on the machine sends their contents on over
ordinary sockets and wraps the answers into packets again.

The crate in `src/` holds the rules of the relay and of its commands, verified
with Verus:

- `relay/`: the buffer that cuts the stream of a device into packets, the router and the flows it keeps apart, UDP connections, the
  outgoing buffer of a client, the loop that serves a client, the accept loop of
  the server, and the registry that matches connections with adb serials;
- `commands`, `adb`, `adb_setup`: what each command asks of `adb`, in which
  order, and how `adb` is found or installed;
- `detect`: name servers, packet size and devices, read from the answers of
  system tools;
- `text`: splitting, trimming, searching and printing text.

It computes on plain values. What touches sockets, processes, files or clocks is
written as a step from state and event to the next state, and driven by the
ordinary Rust in `app/`. Reading and writing packet headers, TCP connections and
the watch over attached devices are supplied by the program that embeds it.

`tests/` runs the library from outside.
