# unrar_ng

The state of a RAR archive between the calls into libunrar that read it, written
and proved in Verus.

libunrar is a C library that is driven through a handle and calls back while it
works. This crate splits what a safe interface to it has to do in two:

- `src/` decides: which call comes next and with what, what each message is
  answered, and what a call's result means for the archive. All of it is verified
  but for four wrappers, named below. `src/laws.rs` states what holds over whole
  runs.
- `app/` makes the calls: the C declarations, the lock that keeps transactions
  apart, the handle, and the path from raw pointers to plain values.

The code is for Unix, where a wide character is one UTF-32 unit and a path is a
sequence of bytes. The names in extraction messages are taken in units of either
width; in units of 16 bits they are kept as they are, surrogates included.

The name of an entry and that of a file being extracted are whole, up to the
longest name that libunrar produces, with U+FFFD for a unit of 32 bits that is no
character. Of a volume's path the first 2048 characters are kept.

Four functions are trusted rather than proved, each a call into code outside:

- `from_vec_truncate` and `from_vec_truncate_16` in `src/wide.rs`: the `widestring`
  crate cuts a name at its terminator;
- `to_string_lossy` in `src/wide.rs`: the `widestring` crate decodes a name;
- `path_debug` in `src/header.rs`: the standard library puts a path in quotes.

What is relied on stands in their contracts.
