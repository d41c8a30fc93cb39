# preagonal

A Discord bot that relays between Discord and Graal Online servers, with its
protocol core verified by Verus.

## Layout

- `src/` — the verified library:
  - `io` — the Graal integer encoding (base 128, each digit plus 32), and
    readers and writers over bytes held in memory, and a writer straight
    into a vector that the caller lends;
  - `net::packet` — packet identifiers, the packets the clients send, and the
    parsers of the packets the servers send;
  - `net::serialization` — the serializer of packet fields (Graal strings,
    scripts, quoted lists);
  - `net::protocol` — the v4 framing, the v5 key stream cipher and framing,
    the v6 header formats, bundle processing, key exchange, the RC4
    decryption of the incoming stream and framing;
  - `net::client` — the requests waiting for a response, the NPC server
    address, the remote-control login;
  - `utils`, `config`, `consts` — compression, configuration and constants.
- `app/` — the program: tokio streams around the library's protocol states,
  the clients and the Discord bot.
- `tests/` — tests of the library.

Each protocol keeps its decisions in a state of the library (`GProtocolV5State`,
`GProtocolV6State`) that takes bytes and gives bytes; the program only moves
those bytes over the network.
