//! The state of a RAR archive between the calls into libunrar that read it.
//!
//! libunrar is a C library: it is driven through a handle, and it calls back
//! while it works. What happens between those calls is here: which call comes
//! next and with what, what a message is answered, and what a call's result
//! means for the archive.
//!
//! - [`archive`]: open archives, the modes they are opened in, and the cursor
//!   that tells what has to follow next;
//! - [`process`]: one file, from the call that processes it to its result;
//! - [`extract`]: a whole archive in one call, with progress events;
//! - [`header`]: the header of an entry;
//! - [`sink`]: where the bytes of an entry go;
//! - [`error`], [`flags`], [`native`], [`pathed`], [`wide`]: codes, flag words,
//!   the C interface, paths, and names in wide characters;
//! - [`laws`]: what holds of all this together.

pub mod archive;
pub mod error;
pub mod extract;
pub mod flags;
pub mod header;
pub mod laws;
pub mod native;
pub mod pathed;
mod private;
pub mod process;
pub mod sink;
pub mod wide;

pub use archive::{
    Cursor, CursorBeforeFile, CursorBeforeHeader, List, ListSplit, NextAction, NextEvent,
    OpenArchive, OpenMode, Process, VolumeInfo,
};
pub use error::{UnrarError, UnrarResult};
pub use extract::{ExtractEvent, ExtractStatus};
pub use header::FileHeader;
pub use sink::DataSink;
pub use wide::FileName;
