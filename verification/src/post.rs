//! The post as it is handed to the store: a body that is not blank, and the
//! path of its image, empty where it has none.

use crate::error::NewPostError;
use crate::text::{is_blank, is_blank_str};
use vstd::prelude::*;

verus! {

/// The text of a post. A value of this type is never blank.
#[derive(Debug, PartialEq, Eq)]
pub struct PostBody {
    text: String,
}

impl View for PostBody {
    type V = Seq<char>;

    closed spec fn view(&self) -> Seq<char> {
        self.text@
    }
}

impl PostBody {
    #[verifier::type_invariant]
    spec fn holds_text(&self) -> bool {
        !is_blank(self.text@)
    }

    /// Takes `text` as a body, unchanged, unless it is blank.
    pub fn parse(text: String) -> (r: Option<PostBody>)
        ensures
            r is Some <==> !is_blank(text@),
            r matches Some(body) ==> body@ == text@,
    {
        if is_blank_str(text.as_str()) {
            None
        } else {
            Some(PostBody { text })
        }
    }

    /// The text of the body.
    pub fn as_str(&self) -> (s: &str)
        ensures
            s@ == self@,
            !is_blank(s@),
    {
        proof {
            use_type_invariant(self);
        }
        self.text.as_str()
    }
}

/// The image of a post, by the path under which readers find it.
#[derive(Debug, Clone, PartialEq, Eq)]
pub struct PostImage {
    pub path: String,
}

impl PostImage {
    /// A post has an image where the path is not empty.
    pub open spec fn spec_is_present(&self) -> bool {
        self.path@.len() > 0
    }

    /// Whether the post has an image.
    #[verifier::when_used_as_spec(spec_is_present)]
    pub fn is_present(&self) -> (b: bool)
        ensures
            b == self.spec_is_present(),
    {
        !self.path.as_str().is_empty()
    }
}

/// A post that passed validation and is ready to be stored.
#[derive(Debug, PartialEq, Eq)]
pub struct NewPost {
    pub body: PostBody,
    pub image: PostImage,
}

/// A post over texts.
pub struct NewPostView {
    pub body: Seq<char>,
    pub image_path: Seq<char>,
}

impl View for NewPost {
    type V = NewPostView;

    open spec fn view(&self) -> NewPostView {
        NewPostView { body: self.body@, image_path: self.image.path@ }
    }
}

/// What validation makes of a body and an image path: the post with both
/// kept as given, or a parse error where the body is blank.
pub open spec fn validated(body: Seq<char>, image_path: Seq<char>) -> Result<
    NewPostView,
    NewPostError,
> {
    if is_blank(body) {
        Err(NewPostError::ParseError)
    } else {
        Ok(NewPostView { body, image_path })
    }
}

/// Whether `r` is the result that `expected` describes.
pub open spec fn is_result(
    r: Result<NewPost, NewPostError>,
    expected: Result<NewPostView, NewPostError>,
) -> bool {
    match expected {
        Ok(view) => r matches Ok(post) && post@ == view,
        Err(error) => r matches Err(e) && e == error,
    }
}

impl NewPost {
    /// Validates and builds a post. The body is kept as given; a blank one is
    /// refused as a parse error. An empty `image_path` stands for no image.
    pub fn new(body: String, image_path: String) -> (r: Result<NewPost, NewPostError>)
        ensures
            is_result(r, validated(body@, image_path@)),
    {
        match PostBody::parse(body) {
            Some(body) => Ok(NewPost { body, image: PostImage { path: image_path } }),
            None => Err(NewPostError::ParseError),
        }
    }
}

} // verus!
