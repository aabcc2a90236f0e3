# blog_api

A small blog service: users register, log in, are renamed, listed and
deleted; authors add posts, fetch them and upload a thumbnail for a post.

- `src/` is the verified library (Verus). It decides what each request
  writes and answers and which error a refused request gets
  (`auth`, `users`, `posts`, `guard`), formats upload paths and log lines
  (`text`, `posts`), makes 480 x 360 PNG thumbnails (`thumbnail`), and states
  laws that span several of these functions (`laws`).
- `app/` is the axum server around it: routes, database access through
  sea-orm, JSON bodies, the bearer-token middleware and token handling, and
  writing uploaded files.
- `tests/` runs the library on concrete values.

The token functions the server uses (`encode_jwt`, `decode_jwt` in
`app/utils/jwt.rs`) sign and check HS256 tokens with the `jsonwebtoken`
crate, keyed by the `TOKEN` environment variable; that is why it is a
dependency although the library does not use it.
Tokens carry an expiry because `jsonwebtoken`'s default validation
requires one; the 24-hour lifetime is this server's own choice.
