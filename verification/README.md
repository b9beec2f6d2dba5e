# atman

The verified core of atman, a node that keeps documents (flights, the list
of nodes of the network) in sync with its peers and shares files as blob
tickets.

`src/` is the library, proved with Verus:

- `frame`: length-prefixed frames of the peer protocols.
- `protocol`: the sync conversation of one side as a state machine, and the
  echo protocol.
- `doc`, `sync`, `keyed`: document addresses and kinds, the registry of known
  documents, and the per-document state that the sync actor keeps.
- `node`, `command`, `rest`: the life of a running node (its actors, its REST
  server) and where each command goes.
- `periodic_sync`, `discovery`: the decisions of the periodic sync and of
  registering the local node in the nodes document.
- `ticket`, `config`, `blobs`: the text form of blob tickets, the hex form of
  secret keys, file naming and transfer counting.
- `binding`, `uniffi_api`: how the foreign-language APIs turn raw input into
  requests.

`tests/` runs the library on concrete values. `app/` holds what the library
does not: the JSON forms of documents, framed I/O on async streams, the loop
that drives a conversation, and filesystem lookups.
