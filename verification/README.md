# encoding_vfs_core

The verified core of a transparent encoding-conversion virtual filesystem: files kept
in a legacy encoding (GBK, Shift_JIS, Big5, ...) appear in UTF-8 at a mount point, and
writes are converted back.

- `src/` is the library, verified with Verus:
  - `encoding` — encodings by name, conversions between them (through `encoding_rs`);
  - `detector` — guessing a file's encoding from its first bytes;
  - `filter` — .gitignore-style passthrough and hidden rules (through `globset`);
  - `cache` — detected encodings per path (through `dashmap`);
  - `config` — configuration and its defaults;
  - `vfs` — visibility, encoding choice, read/write conversion and splicing;
  - `mounts`, `git` — the mount registry, the git wrapper's path mapping and its
    choice of the real git executable;
  - `host` — open-file handles of the FUSE host and WinFsp path/listing rules.
- `app/` is the program around it: command line, configuration file, disk I/O, the
  registry file, the git wrapper process, and the platform hosts.
- `tests/` exercises the library on concrete values.
