# meteorite

The verified core of the meteorite Matrix client.

- `src/` is the library, verified with Verus: the account bookkeeping
  (`auth::accounts`, `auth::orphans`, `auth::guard`), the decisions of the
  login flows (`auth::login`, `auth::session`, `auth::secrets`,
  `auth::error`), the terminal login's choices (`cli`), start-up messages
  (`init`), identifier splitting (`text`), the path cells and the data
  folder (`utils`), and the screens' state machines (`ui`, `login_view`).
- `app/` is the program around it: files, keyring, the Matrix client and
  the window, which hand their results to the library as plain values.
- `tests/` runs the library on concrete values.
