//! The post assembler: what the demultiplexer handed over becomes a validated
//! post, or a parse error.

use crate::demux::{Demultiplexed, DemultiplexedView};
use crate::error::NewPostError;
use crate::post::{is_result, validated, NewPost, NewPostView};
use crate::upload::StoredFileView;
use vstd::prelude::*;

verus! {

/// The image path of a post: the relative path of the stored file, or the
/// empty path where no file was stored.
pub open spec fn image_path_of(stored: Option<StoredFileView>) -> Seq<char> {
    match stored {
        Some(file) => file.relative_path,
        None => Seq::empty(),
    }
}

/// The post that is built from what the demultiplexer handed over.
pub open spec fn assembled(outcome: DemultiplexedView) -> Result<NewPostView, NewPostError> {
    validated(outcome.body, image_path_of(outcome.stored))
}

/// Builds the post from the joined text and the stored file. The text is
/// the body as it stands; a blank one is a parse error. The image is the
/// relative path of the stored file, and absent where none was stored.
pub fn build_post(outcome: Demultiplexed) -> (r: Result<NewPost, NewPostError>)
    ensures
        is_result(r, assembled(outcome@)),
{
    let Demultiplexed { body, stored } = outcome;
    let image_path = match stored {
        Some(file) => file.relative_path,
        None => String::new(),
    };
    NewPost::new(body, image_path)
}

} // verus!
