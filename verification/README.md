# nix_store_mesh

A server with two sides. To the machines of a mesh it serves the Nix store of its own
machine as a binary cache. To its own machine it is a proxy: a request for
`/<host>/<path>` goes to `http://<host>/<path>`, as long as the host can be reached.

`src/` is the library, verified with Verus. It makes every decision on plain values.

- `text`: searching, cutting, joining and trimming text.
- `reply`: statuses, replies, and the commands that replies are made from.
- `json`, `path_info`: what `nix path-info --json` reports of a store path.
- `store`: which request asks for what, the commands it takes, and its reply.
- `remote`: what is known of the hosts, how it is refreshed, and how a request is
  forwarded.
- `front`: which side serves whom.
- `store_laws`, `remote_laws`: what holds of the two sides as a whole.

`app/` is the program around it: it listens, runs `nix`, sends requests on, and holds
the lock around the cache of hosts. The library hands it a step, and it comes back
with what came of it.
