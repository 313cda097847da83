//! Blog posts that go from draft to review to published, each stage its own
//! type; and screens of drawable components.
use vstd::prelude::*;
use vstd::string::StringExecFns;

verus! {

/// A post being written.
pub struct DraftPost {
    content: String,
}

/// A post waiting for approval.
pub struct PendingReviewPost {
    content: String,
}

/// A published post.
pub struct Post {
    content: String,
}

impl DraftPost {
    /// The text written so far.
    pub closed spec fn text(&self) -> Seq<char> {
        self.content@
    }

    /// Appends `text` to the draft.
    pub fn add_text(&mut self, text: &str)
        ensures
            final(self).text() == old(self).text() + text@,
    {
        self.content.append(text);
    }

    /// Sends the draft for review, with its text.
    pub fn request_review(self) -> (r: PendingReviewPost)
        ensures
            r.text() == self.text(),
    {
        PendingReviewPost { content: self.content }
    }
}

impl PendingReviewPost {
    /// The text under review.
    pub closed spec fn text(&self) -> Seq<char> {
        self.content@
    }

    /// Publishes the post, with its text.
    pub fn approve(self) -> (r: Post)
        ensures
            r.text() == self.text(),
    {
        Post { content: self.content }
    }
}

impl Post {
    /// The published text.
    pub closed spec fn text(&self) -> Seq<char> {
        self.content@
    }

    /// An empty draft.
    pub fn new() -> (r: DraftPost)
        ensures
            r.text() == Seq::<char>::empty(),
    {
        DraftPost { content: String::new() }
    }

    /// The published text.
    pub fn content(&self) -> (r: &str)
        ensures
            r@ == self.text(),
    {
        self.content.as_str()
    }
}

/// A component that can be drawn; drawing yields the line that shows it.
pub trait Draw {
    /// The line that shows the component.
    spec fn picture(&self) -> Seq<char>;

    /// Draws the component.
    fn draw(&self) -> (r: String)
        ensures
            r@ == self.picture(),
    ;
}

/// A button with a label.
pub struct Button {
    pub width: u32,
    pub height: u32,
    pub label: String,
}

impl Draw for Button {
    open spec fn picture(&self) -> Seq<char> {
        "button"@
    }

    fn draw(&self) -> (r: String) {
        String::from_str("button")
    }
}

/// A box offering a choice between options.
pub struct SelectBox {
    pub width: u32,
    pub height: u32,
    pub options: Vec<String>,
}

impl Draw for SelectBox {
    open spec fn picture(&self) -> Seq<char> {
        "selectbox"@
    }

    fn draw(&self) -> (r: String) {
        String::from_str("selectbox")
    }
}

/// A screen whose components are all of one type.
pub struct TypedScreen<T: Draw> {
    pub components: Vec<T>,
}

impl<T: Draw> TypedScreen<T> {
    /// Draws every component in order and returns their lines.
    pub fn run(&self) -> (r: Vec<String>)
        ensures
            r@.len() == self.components@.len(),
            forall|i: int| 0 <= i < r@.len() ==> #[trigger] r@[i]@ == self.components@[i].picture(),
    {
        let mut lines: Vec<String> = Vec::new();
        let mut i: usize = 0;
        while i < self.components.len()
            invariant
                i <= self.components@.len(),
                lines@.len() == i,
                forall|j: int| 0 <= j < i ==> #[trigger] lines@[j]@ == self.components@[j].picture(),
            decreases self.components@.len() - i,
        {
            let line = self.components[i].draw();
            lines.push(line);
            i = i + 1;
        }
        lines
    }
}

} // verus!
