# virtual_rack

A web view of a PipeWire graph. A thread listens to PipeWire's registry; a
web server streams the graph to browsers as server-sent events.

The library (`src/`) is written in Verus and proved:

- `pipewire::node`: nodes, ports and links as values, nodes and links with
  the channels on which they broadcast their changes, and how media class and
  format texts are read.
- `pipewire::state`: the whole graph by id, the record of which node each
  port belongs to, and what every change of the graph broadcasts.
- `pipewire` (the module itself): what the graph makes of each piece of
  registry news (`State::handle_registry_event`), stated over
  `registry_step`.
- `server::events`: the shapes in which the graph is sent to clients.
- `server`: the ports the servers listen on, and the https address the plain
  server redirects to (the authority check is the http crate's, behind a
  trusted wrapper).
- `text`: substring search, decimal reading and writing, replacement.

Each node, link and the graph send through a `Chan`: a tokio broadcast
sender with a ghost record of every value it handed to `Sender::send`, which
only the call that sends extends. The contracts state that record exactly:
which events each change hands to which channel, in which order, and when it
hands none. What a given receiver then gets depends on the receivers that
exist at the time (and on the channel's capacity) and is not stated.

A node or link copy (`get_node`, `get_link`, a snapshot, an appearance on the
graph's channel) is a value with its own sending end on the original's
channel; later changes do not reach the copy's value.

`app/` is the program around the library: the PipeWire listeners, the axum
servers, TLS, and serialisable copies of the client-facing shapes.
