# project-safetynet

A command-line backup tool: it reads a JSON array of jobs and writes, for
each job, a `.tar.gz` archive of the files of its input directory that its
include and exclude rules keep. Archives are named
`<nickname>-<timestamp>.tar.gz` and written to the job's output directory
(the current directory when none is given).

Layout:

- `src/` is the library, with its contracts and proofs:
  - `cli.rs` chooses the configuration file from the arguments;
  - `config.rs` holds the job entry (`Item`), the rules for nicknames and
    paths, and the selection of valid entries;
  - `compression_level.rs` maps `fast`/`best` to gzip levels;
  - `file_filter.rs` compiles the rules into regex sets, judges each path,
    and keeps the state of the depth-first directory walk;
  - `archive.rs` names the archive and sets up a job (`create_archive`),
    and names the entries inside the tar stream;
  - `progress_bar.rs` keeps the terminal progress bar;
  - `text.rs` and `error.rs` hold string helpers and the job error.
- `app/` is the program around it: argument reading, the JSON file, the
  file system walk, the gzip and tar streams, logging, and the floating-point
  position of the progress bar.
- `tests/` exercises the library.
