# user_accounts

A user-account service for an HTTP API with JWT authentication and MongoDB
storage, written in Verus.

- `src/` is the verified library: the field rules of sign-up, login and
  update requests (`validation`, `models`), user identifiers (`object_id`),
  password hashes (`password`), the decisions of the user service
  (`service`) and the rules of the endpoints (`controller`). Calls into
  `bson`, `bcrypt`, `regex` and `validator` stand behind trusted wrappers
  whose contracts are stated in their doc comments.
- `app/` is the server: configuration, the MongoDB calls, JWT encoding and
  decoding, and the actix-web endpoints, which hand the outcomes of their
  outside work to the library.
- `tests/` runs the library on concrete values.
