//! Messages handed back by the host's file-loading dialogs: a picked file's
//! name together with its raw bytes, tagged by what the host should do with
//! it (load it as a binary program image, or treat it as source text).

use vstd::prelude::*;

verus! {

/// A file delivered by the host shell.
#[derive(Debug)]
pub enum FileProcesserMessage {
    /// A raw binary program image, to be loaded verbatim into the bus.
    BinaryFileOpen((String, Vec<u8>)),
    /// A source file, kept as bytes for the host to process.
    SourceFileOpen((String, Vec<u8>)),
}

} // verus!
