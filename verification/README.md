# slumber (verified parts)

Two pieces of the Slumber HTTP client, written in Verus:

- `src/paths.rs`: the data directory and the files in it, path joining, and
  expansion of a leading `~` into the home directory. Paths are held as
  their bytes, with the Unix rules of `std::path`.
- `src/root.rs`: the root view component's request selection, as a state
  machine that answers each event with the database work it needs
  (`Effect`) and takes the results back through `finish_*` methods.

`app/` holds what cannot be verified: the process-wide data directory, the
git lookup of the repository root, persistence glue, the loop that
performs the view's database effects, and drawing.
