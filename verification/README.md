# bili_sync auto-upload, verified

The decision logic of the automatic uploader, each function proved
against its contract. After a download, the uploader sends a video's
files to an OpenList server. It keeps one upload record per local file
and retries failed uploads. It can also delete the local files and prune
the emptied directories.

- `src/` is the verified library:
  - `openlist`: the requests sent to OpenList and how replies are judged.
  - `remote`: the remote paths, and which remote directories to create.
  - `upload_record`, `record_writes`: the upload records and their writes.
  - `single_file`: the upload of one file with retries, as a state machine.
  - `directory`: the upload of one directory, as a state machine.
  - `file_walk`, `path_order`: the file walk and the path order of its result.
  - `file_name`: the stem of a file name.
  - `prune`: the walk up that removes emptied directories, as a state machine.
  - `upload_records`: the listing of upload records.
  - `schema`: the schema changes for the records table.
  - `error`: the errors and the texts they are reported by.
  - `text`: the small string operations that these modules use.
- `app/` is ordinary Rust. It holds the database entity and migrations and
  the HTTP route. It also runs the loops that perform what the state
  machines ask for: file system, database, HTTP and pauses.
- `tests/` runs the library on concrete cases.
