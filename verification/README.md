# mercato

The verified core of a small AT Protocol marketplace (listings, comments and
statuses, announced on Bluesky).

- `src/` is the library, verified with Verus: post texts and the byte range of
  their link facet (`posts`), AT-URIs and record keys (`uris`), the forms and
  records (`forms`, `lexicons`, `listing`), the index statements and their
  bound values (`store`, `search`), the feed order (`feed`), the values the
  handlers render and send (`views`), and the decisions of the request
  handlers and the agent as state machines (`home`, `page`, `session`,
  `publish`), and what the handlers save and show from the outside results
  (`steps`).
- `app/` holds what does I/O: the D1 store (`db`), the AT Protocol agent
  (`agent`) and the serde forms of the records (`types`). It has no HTTP
  endpoints: they need the application state, the OAuth client, the DID
  resolver, the durable object that broadcasts to web sockets, the error
  type and the page templates, and none of those is part of this project's
  sources. The handler decisions they would drive stand in `src/` (`home`,
  `page`, `session`, `publish`, `steps`, `views`) and run in `tests/`.
- `tests/` runs the library on concrete values.
