# cashwises

The verified core of a deals and coupons web API: the decisions, texts and
arithmetic behind its HTTP handlers, with their contracts proved by Verus.

- `src/text`: decimal writing and reading of integers (as Rust's `FromStr`
  reads them), comma splitting, substring search, Unicode white space and the
  first word of a text.
- `src/errors`: the API error type and the answer each error gets.
- `src/handlers`: settings, paging, verification codes, the verification mail,
  image uploads (a state machine driven one multipart field at a time), and the
  answers of the create, read, update and delete handlers.
- `src/db`: the decisions of the user queries.
- `src/extractors`: the API key check.
- `src/schema`, `src/models`: the request and record types.

`app/` is the actix-web server around the library: routing, the database
queries, file storage, mail delivery and JSON.
