//! The content panel: the text of the selected file, or a coarse preview of
//! it where it is a picture.

use vstd::prelude::*;
use crate::component::content_viewer::preview::{loaded_view, GridView, ImageGrid};
use crate::text::{
    ascii_lower, chars_of, ends_with_lowered, has_lowered_suffix, same_ignoring_case, text_of,
};

pub mod preview;

verus! {

/// Whether a file of this name is shown as a picture: its name ends in one of
/// the extensions png, jpg, jpeg, gif, bmp, webp, in any mix of cases.
pub open spec fn image_name(name: Seq<char>) -> bool {
    ||| ends_with_lowered(name, ".png"@)
    ||| ends_with_lowered(name, ".jpg"@)
    ||| ends_with_lowered(name, ".jpeg"@)
    ||| ends_with_lowered(name, ".gif"@)
    ||| ends_with_lowered(name, ".bmp"@)
    ||| ends_with_lowered(name, ".webp"@)
}

/// A suffix found in one name, cases ignored, is found in every name that
/// differs from it only in the case of its ASCII letters.
proof fn lemma_suffix_ignores_case(a: Seq<char>, b: Seq<char>, suffix: Seq<char>)
    requires
        same_ignoring_case(a, b),
        ends_with_lowered(a, suffix),
    ensures
        ends_with_lowered(b, suffix),
{
    assert forall|i: int| 0 <= i < suffix.len() implies ascii_lower(
        #[trigger] b[b.len() - suffix.len() + i],
    ) == suffix[i] by {
        let at = a.len() - suffix.len() + i;
        assert(ascii_lower(a[at]) == suffix[i]);
        assert(ascii_lower(a[at]) == ascii_lower(b[at]));
    }
}

/// Names that differ only in the case of their ASCII letters are both
/// pictures or both not.
pub proof fn lemma_image_name_ignores_case(a: Seq<char>, b: Seq<char>)
    requires
        same_ignoring_case(a, b),
    ensures
        image_name(a) == image_name(b),
{
    assert(same_ignoring_case(b, a));
    assert forall|suffix: Seq<char>| ends_with_lowered(a, suffix) == ends_with_lowered(
        b,
        suffix,
    ) by {
        if ends_with_lowered(a, suffix) {
            lemma_suffix_ignores_case(a, b, suffix);
        }
        if ends_with_lowered(b, suffix) {
            lemma_suffix_ignores_case(b, a, suffix);
        }
    }
}

/// What stands in the body of the panel.
#[derive(Clone, Copy, PartialEq, Eq, Structural, Debug)]
pub enum Body {
    /// A load is under way.
    Loading,
    /// The last load failed; the message is shown.
    Failure,
    /// The text of a file.
    Text,
    /// The preview of a picture.
    Image,
    /// Nothing to show: the invitation to select a file.
    Placeholder,
}

/// The state of the content panel.
#[derive(Debug)]
pub struct ContentViewer {
    file_name: Option<String>,
    file_path: Option<String>,
    content: Option<String>,
    loading: bool,
    error: Option<String>,
    image: Option<ImageGrid>,
}

/// What the content panel holds, as plain values.
pub struct ViewerView {
    pub file_name: Option<Seq<char>>,
    pub file_path: Option<Seq<char>>,
    pub content: Option<Seq<char>>,
    pub loading: bool,
    pub error: Option<Seq<char>>,
    pub image: Option<GridView>,
}

impl ViewerView {
    /// The panel with nothing selected.
    pub open spec fn empty() -> ViewerView {
        ViewerView {
            file_name: None,
            file_path: None,
            content: None,
            loading: false,
            error: None,
            image: None,
        }
    }

    /// What stands in the body: a load under way hides everything else, then
    /// a failure, then text, then a preview.
    pub open spec fn body(self) -> Body {
        if self.loading {
            Body::Loading
        } else if self.error is Some {
            Body::Failure
        } else if self.content is Some {
            Body::Text
        } else if self.image is Some {
            Body::Image
        } else {
            Body::Placeholder
        }
    }

    /// The panel after the outcome of a picture load has arrived. A failure
    /// leaves its message and clears text and preview.
    pub open spec fn with_image(self, loaded: Result<GridView, Seq<char>>) -> ViewerView {
        match loaded {
            Ok(grid) => ViewerView { loading: false, error: None, image: Some(grid), ..self },
            Err(message) => ViewerView {
                loading: false,
                error: Some(message),
                content: None,
                image: None,
                ..self
            },
        }
    }
}

impl View for ContentViewer {
    type V = ViewerView;

    closed spec fn view(&self) -> ViewerView {
        ViewerView {
            file_name: text_of(self.file_name),
            file_path: text_of(self.file_path),
            content: text_of(self.content),
            loading: self.loading,
            error: text_of(self.error),
            image: match self.image {
                Some(grid) => Some(grid@),
                None => None,
            },
        }
    }
}

impl ContentViewer {
    /// The panel with nothing selected.
    pub fn new() -> (viewer: ContentViewer)
        ensures
            viewer@ == ViewerView::empty(),
    {
        ContentViewer {
            file_name: None,
            file_path: None,
            content: None,
            loading: false,
            error: None,
            image: None,
        }
    }

    /// Shows a file's text, or nothing where there is none, in place of
    /// whatever was shown.
    pub fn set_text(&mut self, file_name: Option<String>, content: Option<String>)
        ensures
            final(self)@ == (ViewerView {
                file_name: text_of(file_name),
                content: text_of(content),
                ..ViewerView::empty()
            }),
    {
        self.file_name = file_name;
        self.file_path = None;
        self.content = content;
        self.loading = false;
        self.error = None;
        self.image = None;
    }

    /// Shows that a file could not be read, in place of whatever was shown.
    pub fn set_failure(&mut self, file_name: Option<String>, message: String)
        ensures
            final(self)@ == (ViewerView {
                file_name: text_of(file_name),
                error: Some(message@),
                ..ViewerView::empty()
            }),
    {
        self.file_name = file_name;
        self.file_path = None;
        self.content = None;
        self.loading = false;
        self.error = Some(message);
        self.image = None;
    }

    /// Starts showing the picture at `path`: the panel is cleared and waits
    /// for the outcome of the load.
    pub fn set_image_path(&mut self, file_name: Option<String>, path: String)
        ensures
            final(self)@ == (ViewerView {
                file_name: text_of(file_name),
                file_path: Some(path@),
                loading: true,
                ..ViewerView::empty()
            }),
    {
        self.file_name = file_name;
        self.file_path = Some(path);
        self.content = None;
        self.loading = true;
        self.error = None;
        self.image = None;
    }

    /// Takes the outcome of a picture load: the preview, or the message of
    /// the failure.
    pub fn image_loaded(&mut self, loaded: Result<ImageGrid, String>)
        ensures
            final(self)@ == old(self)@.with_image(loaded_view(loaded)),
    {
        self.loading = false;
        match loaded {
            Ok(grid) => {
                self.error = None;
                self.image = Some(grid);
            },
            Err(message) => {
                self.error = Some(message);
                self.content = None;
                self.image = None;
            },
        }
    }

    /// Whether a file of this name is shown as a picture.
    pub fn is_image_name(name: &str) -> (is_image: bool)
        ensures
            is_image == image_name(name@),
    {
        let chars = chars_of(name);
        has_lowered_suffix(&chars, ".png") || has_lowered_suffix(&chars, ".jpg")
            || has_lowered_suffix(&chars, ".jpeg") || has_lowered_suffix(&chars, ".gif")
            || has_lowered_suffix(&chars, ".bmp") || has_lowered_suffix(&chars, ".webp")
    }

    /// What stands in the body of the panel.
    pub fn body(&self) -> (body: Body)
        ensures
            body == self@.body(),
    {
        if self.loading {
            Body::Loading
        } else if self.error.is_some() {
            Body::Failure
        } else if self.content.is_some() {
            Body::Text
        } else if self.image.is_some() {
            Body::Image
        } else {
            Body::Placeholder
        }
    }

    pub fn file_name(&self) -> (name: Option<&String>)
        ensures
            name is Some == self@.file_name is Some,
            name matches Some(name) ==> self@.file_name == Some(name@),
    {
        self.file_name.as_ref()
    }

    pub fn file_path(&self) -> (path: Option<&String>)
        ensures
            path is Some == self@.file_path is Some,
            path matches Some(path) ==> self@.file_path == Some(path@),
    {
        self.file_path.as_ref()
    }

    pub fn content(&self) -> (content: Option<&String>)
        ensures
            content is Some == self@.content is Some,
            content matches Some(content) ==> self@.content == Some(content@),
    {
        self.content.as_ref()
    }

    pub fn error(&self) -> (error: Option<&String>)
        ensures
            error is Some == self@.error is Some,
            error matches Some(error) ==> self@.error == Some(error@),
    {
        self.error.as_ref()
    }

    pub fn image(&self) -> (image: Option<&ImageGrid>)
        ensures
            image is Some == self@.image is Some,
            image matches Some(image) ==> self@.image == Some(image@),
    {
        self.image.as_ref()
    }

    pub fn is_loading(&self) -> (loading: bool)
        ensures
            loading == self@.loading,
    {
        self.loading
    }
}

} // verus!
