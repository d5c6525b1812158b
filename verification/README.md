# kiro_cli

Import of the account that kiro-cli is logged in with, and switching of the kiro-cli
login to a stored account.

* `src/` is the library, verified with Verus. `account` holds accounts and the search for
  one of them, `store` the lock on them, `paths` the places of files, `token` the token
  file, `import` and `import_run` the import, `switch` and `switch_run` the switch.
  `json`, `clock` and `text` stand between the library and `serde_json`, `chrono` and the
  standard library. `laws` states what holds of imports and switches as a whole.
* `tests/` runs the library on given values.
* `app/` holds the commands of the desktop application: files, variables, services and the
  shared store. It performs the actions that `import_run` and `switch_run` ask for.
