# commit_wizard

The rules engine of a conventional-commit helper, written in Verus: settings
layering and defaults, registry selection, commit-message validation, version
bumps, branch and push policy, staging plans and the decisions around git.

- `src/` is the verified library. Each public function states in its contract
  what it returns; laws that relate several functions are public proof
  functions next to them.
- `tests/` runs the library on concrete values.
- `app/` is the unverified shell: file and process I/O, git2, serde/toml
  conversions and environment lookup. It hands plain values to the library and
  acts on what comes back.
