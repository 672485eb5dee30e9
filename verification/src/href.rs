//! Links, as the attribute `href` holds them.

use vstd::prelude::*;

verus! {

/// A link, as the attribute `href` holds it.
#[derive(Debug, Clone, PartialEq, Eq)]
pub struct Href {
    pub link: String,
}

impl View for Href {
    type V = Seq<char>;

    open spec fn view(&self) -> Seq<char> {
        self.link@
    }
}

/// The text that a link is written as in the attribute `href`: the link
/// as it was given.
pub open spec fn href_of(link: Seq<char>) -> Seq<char> {
    link
}

impl Href {
    /// The link to `link`.
    pub fn new(link: String) -> (r: Href)
        ensures
            r@ == link@,
    {
        Href { link }
    }

    /// The text of the link.
    pub fn link(&self) -> (r: &str)
        ensures
            r@ == href_of(self@),
    {
        self.link.as_str()
    }
}

} // verus!
