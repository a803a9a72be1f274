use vstd::prelude::*;

verus! {

/// Falls back to a default when a piece of text is empty.
pub trait StringExt {
    /// The characters of the text.
    spec fn text(&self) -> Seq<char>;

    /// The text itself, or `default` when the text is empty.
    fn or<'a>(&'a self, default: &'a str) -> (r: &'a str)
        ensures
            r@ == (if self.text().len() == 0 {
                default@
            } else {
                self.text()
            }),
    ;
}

impl StringExt for str {
    open spec fn text(&self) -> Seq<char> {
        self@
    }

    fn or<'a>(&'a self, default: &'a str) -> (r: &'a str) {
        if self.is_empty() {
            default
        } else {
            self
        }
    }
}

impl StringExt for String {
    open spec fn text(&self) -> Seq<char> {
        self@
    }

    fn or<'a>(&'a self, default: &'a str) -> (r: &'a str) {
        if self.as_str().is_empty() {
            default
        } else {
            self.as_str()
        }
    }
}

} // verus!
