# lions_pos

The verified core of the Lions POS point-of-sale backend, written in Verus.

* `src/` is the library. Each module holds a part of the shop's data model
  and the decisions taken on it, with contracts Verus proves:
  `config` (settings and their defaults), `auth` (bearer tokens, token
  claims, login checks, permission checks), `users` (accounts, profiles, permissions grouped by
  module), `catalog` (categories, products, photos), `inventory` (branches,
  warehouses, stock balances and movements), `orders` (checkout rules and
  order views), `shifts`, `vouchers`, `upload`, `seed` (the data of a fresh
  database), `error` and `response`. `text` holds the string and number
  helpers the rest uses, `ids` and `clock` the fresh record ids and the
  current time, which come from `uuid` and `chrono`.
* `app/` is the HTTP server around it: configuration from the environment,
  the SQLite database, JWT signing, routing and the request handlers. It also
  does the money arithmetic, which the shop performs in `f64`.
* `tests/` exercises the library on concrete values.
