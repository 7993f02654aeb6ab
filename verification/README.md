# link_disk

Moves application data from its usual location into a workspace on another
disk and puts a link in its place.

- `src/` is the verified library: placeholder expansion, configuration
  lookups, link-status classification, the plans of file system steps for
  linking, unlinking and merging, and the decisions of each command. The
  laws these plans obey are proved in `src/model.rs`. That a merge leaves
  the union of both trees is proved in `src/dir_ops.rs` over the listing of
  the entries that the walk visits, using the step functions that its
  methods return; that targets stay inside the workspace is proved in
  `src/workspace.rs`.
- `app/` is the `link-disk` command: argument parsing, reading the TOML
  configuration and the process environment, observing paths and performing
  the planned steps.
