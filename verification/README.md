# Vantage

The request handling of a backend for reviews of businesses: users register, log in and keep
a profile, and write reviews, from which each business has its rating.

- `src/` is the library. Each request is a sequence of steps: a step names something to be done
  outside (a call of the authentication service, a query, a text to be cleaned), and `resume`
  takes the outcome and gives the next step. What each step does, and what holds from the first
  to the last, is stated in contracts and proved by Verus.
  - `value`, `metadata`, `text`, `clock`, `rating`, `headers`: JSON values, texts, points in time,
    ratings as bit patterns of doubles, and cookies as headers.
  - `auth`, `register`, `sign_in`: registration, log in and log out.
  - `users`, `account`, `profile`: profiles and their changes.
  - `reviews`, `review_list`, `review_write`, `review_change`, `review_rating`: reviews, and the
    rating of a business.
  - `laws`, `register_laws`, `account_laws`, `review_laws`: what holds of several of these
    together.
- `app/` holds the HTTP routes. It runs the steps against a `Backend`.
- `tests/` runs the library on given values.
