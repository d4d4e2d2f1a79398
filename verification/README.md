# samply

The logic of a sampling profiler for perf recordings, written in Rust and
verified with Verus.

* `src/` is the library. It turns the records of a perf recording (samples,
  context switches, mappings, starts, ends and names of threads) into the
  entries of a profile, and it says where the files with the symbols of a
  library may be found. Every function carries a contract; `src/laws.rs`,
  `src/memory_laws.rs` and the `law_` functions of the other modules state what
  holds across functions.
  What comes from other crates (object files, build IDs, perf's keys for mapped
  files) is called through a few small functions whose contracts name the
  outside function.
* `tests/` runs the library on concrete values.
* `app/` reads recordings, opens and maps files, walks stacks with framehop and
  downloads symbol files. It does what the library asks for next and hands back
  what came of it.
