# tellonym

The back end of a Tellonym-style service: users ask each other questions
(optionally anonymously), answer the questions asked of them, like or dislike
questions and answers, and follow each other. Accounts log in with a bcrypt
password and get short-lived HS256 access tokens and refresh tokens.

## Layout

- `src/` is the library, verified with Verus. It holds the rules of the
  service as functions from plain values to plain values:
  - `model`, `requests`, `error`: the stored records, the request bodies,
    and the errors with their HTTP statuses;
  - `votes`: what a like or dislike does to the stored likes and to the
    like counter, with the law that the counter keeps equal to likes minus
    dislikes;
  - `follows`: following and unfollowing, with the law that the follow
    counters keep matching the stored follows;
  - `questions`, `users`, `profile`: asking, answering, searching and
    editing a profile;
  - `auth`, `jwt_util`, `user_guard`: registration, login, token refresh,
    token signing and checking, and the request guard, with the law that a
    token authenticates its user for fifteen minutes and no longer;
  - `text`: trimming, splitting and decimal numbers;
  - `trusted`: the calls into bcrypt, jwt/hmac/sha2 and chrono, with the
    contracts that the proofs rely on.
- `app/` is the Rocket server around it: routes, request guard, database
  access through SeaORM, migrations and file uploads.
- `tests/` runs the library on concrete values.
