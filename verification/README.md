# replex

Replex is a proxy in front of a Plex Media Server that rewrites what Plex
answers: collection hubs that share a title are mixed into one row, watched
items can be left out, hubs of collections labelled `REPLEXHERO` (or rows
named in `REPLEX_HERO_ROWS`) are shown in hero style, transcode requests can
be forced to maximum quality or to another version of a movie, and user
state and leaf counts can be hidden.

## Layout

- `src/` is the verified library. Every rule the proxy applies is a
  function with a contract proved by Verus: reading and rewriting request
  queries (`query`, `routes`, `routes/playback`), the rewriting of hubs and
  their items (`transform` and its modules), the headers and paths of
  requests to Plex (`plex_client`), cache keys and lifetimes (`cache`), the
  settings (`config`) and the route plan (`routes::route`). `laws` states
  properties that hold across functions.
- `app/` is the server: it reads the settings from the environment, builds
  the router from the library's route plan, performs the HTTP requests, and
  converts between JSON/XML and the library's types.
- `tests/` runs the library on concrete values.
