# geoify

A Slack bot that answers messages with time and weather information, split
into a verified library and an unverified application around it.

- `src/` — the library, verified with Verus:
  - `bot::protocol` — socket-mode frames, acknowledgements, `chat.postMessage`
    request and answer;
  - `bot::websocket` — what the client does for each frame (acknowledge,
    reply, stop), which messages are answered, and the request that posts a
    reply;
  - `bot::laws` — properties of those reactions, proved for every frame;
  - `slack` — the event types and the decision on an `apps.connections.open`
    answer;
  - `nlp` — the NLP service's settings and answer;
  - `config` — the bot's settings.
- `app/` — network and process I/O: HTTP calls, the websocket, JSON decoding
  and encoding through serde, reading settings, logging, the NLP server.
- `tests/` — tests of the library on concrete values.
