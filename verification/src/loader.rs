//! Choosing the input source and turning the bytes it yielded into a load
//! outcome.

use vstd::prelude::*;
use crate::bitmap::BitmapView;
use crate::bitmap::Bitmap;
use crate::codec::DecodeError;
use crate::codec::decode_rgba;
use crate::codec::decode_spec;

verus! {

/// Where the image bytes are read from: standard input, or a named file.
#[derive(Debug, PartialEq, Eq)]
pub enum Source {
    Stdin,
    File(String),
}

/// The sentinel path that conventionally selects standard input.
pub open spec fn is_stdin_sentinel(path: Seq<char>) -> bool {
    path == "-"@
}

/// Which source an optional path argument selects: no argument at all and
/// the sentinel path "-" both mean standard input; any other path names a
/// file to read.
pub fn choose_source(file: Option<String>) -> (s: Source)
    ensures
        match file {
            Option::None => s == Source::Stdin,
            Option::Some(p) => if is_stdin_sentinel(p@) {
                s == Source::Stdin
            } else {
                s matches Source::File(q) && q@ == p@
            },
        },
{
    match file {
        Option::None => Source::Stdin,
        Option::Some(p) => {
            let dash: String = "-".to_owned();
            if p == dash {
                Source::Stdin
            } else {
                Source::File(p)
            }
        },
    }
}

/// The outcome of loading a byte buffer: nothing to display, or a decoded
/// bitmap.
pub enum Loaded {
    Empty,
    Image(Bitmap),
}

/// The mathematical content of a load outcome.
pub ghost enum LoadedView {
    Empty,
    Image(BitmapView),
}

impl View for Loaded {
    type V = LoadedView;

    closed spec fn view(&self) -> LoadedView {
        match self {
            Loaded::Empty => LoadedView::Empty,
            Loaded::Image(bm) => LoadedView::Image(bm@),
        }
    }
}

impl Loaded {
    /// A decoded bitmap carries a well-formed sample buffer.
    pub open spec fn wf(self) -> bool {
        match self@ {
            LoadedView::Image(v) => v.wf(),
            LoadedView::Empty => true,
        }
    }
}

/// What loading a byte buffer yields: empty input is a clean no-op that
/// displays nothing, anything else is decoded, and bytes the decoder
/// rejects are an error.
pub open spec fn load_spec(bytes: Seq<u8>) -> Result<LoadedView, DecodeError> {
    if bytes.len() == 0 {
        Ok(LoadedView::Empty)
    } else {
        match decode_spec(bytes) {
            Some(v) => Ok(LoadedView::Image(v)),
            None => Err(DecodeError::InvalidImage),
        }
    }
}

/// Turn the bytes read from the chosen source into a load outcome.
pub fn load(bytes: Vec<u8>) -> (r: Result<Loaded, DecodeError>)
    ensures
        match r {
            Ok(l) => load_spec(bytes@) == Ok::<LoadedView, DecodeError>(l@) && l.wf(),
            Err(e) => load_spec(bytes@) == Err::<LoadedView, DecodeError>(e),
        },
{
    if bytes.len() == 0 {
        Ok(Loaded::Empty)
    } else {
        match decode_rgba(&bytes) {
            Ok(bm) => Ok(Loaded::Image(bm)),
            Err(e) => Err(e),
        }
    }
}

/// Whether the bytes came from a named file or from standard input makes no
/// difference: the load outcome is a function of the bytes alone, so equal
/// byte buffers load identically.
pub proof fn lemma_outcome_independent_of_source(file_bytes: Seq<u8>, stdin_bytes: Seq<u8>)
    requires
        file_bytes == stdin_bytes,
    ensures
        load_spec(file_bytes) == load_spec(stdin_bytes),
{
}

} // verus!
