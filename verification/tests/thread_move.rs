//! An open archive can be handed to another thread.

use unrar_ng::{CursorBeforeHeader, OpenArchive, Process};

fn assert_send<T: Send>() {}

#[test]
fn an_open_archive_is_send() {
    assert_send::<OpenArchive<Process, CursorBeforeHeader>>();
}
