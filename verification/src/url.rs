//! Endpoint addresses. The client never takes an address apart or builds one
//! from pieces: it checks once that a text is a URI and hands it on as it is.

use vstd::prelude::*;

verus! {

/// Whether a text is one that `http::Uri` accepts.
pub uninterp spec fn is_uri(text: Seq<char>) -> bool;

/// Parses the text with `http::Uri`'s `FromStr` and reports whether that
/// succeeded. The answer depends on the text alone.
#[verifier::external_body]
fn parses_as_uri(text: &str) -> (r: bool)
    ensures
        r == is_uri(text@),
{
    text.parse::<http::Uri>().is_ok()
}

/// An address that has been checked to be a URI.
#[derive(Debug, PartialEq, Eq)]
pub struct Url {
    text: String,
}

impl View for Url {
    type V = Seq<char>;

    closed spec fn view(&self) -> Seq<char> {
        self.text@
    }
}

impl Clone for Url {
    fn clone(&self) -> (r: Self)
        ensures
            r@ == self@,
    {
        proof {
            use_type_invariant(self);
        }
        Url { text: self.text.clone() }
    }
}

impl Url {
    #[verifier::type_invariant]
    spec fn well_formed(self) -> bool {
        is_uri(self.text@)
    }

    /// Checks a text and keeps it as an address; `None` when it is no URI.
    pub fn parse(text: &str) -> (r: Option<Url>)
        ensures
            r is Some <==> is_uri(text@),
            r matches Some(url) ==> url@ == text@,
    {
        if parses_as_uri(text) {
            Some(Url { text: text.to_owned() })
        } else {
            None
        }
    }

    /// The address as text.
    pub fn as_str(&self) -> (r: &str)
        ensures
            r@ == self@,
            is_uri(r@),
    {
        proof {
            use_type_invariant(self);
        }
        self.text.as_str()
    }
}

} // verus!
