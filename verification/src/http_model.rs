//! Plain-value model of the HTTP responses the client reacts to.

use crate::views::each_view;
use crate::text::{
    all_visible_ascii, ascii_text, same_ignoring_ascii_case, text_eq_ignore_ascii_case,
    visible_ascii_text,
};
use vstd::prelude::*;

verus! {

/// One header line of a response.
#[derive(Debug, PartialEq, Eq)]
pub struct HeaderField {
    pub name: String,
    pub value: Vec<u8>,
}

/// Mathematical model of a `HeaderField`.
pub struct HeaderFieldView {
    pub name: Seq<char>,
    pub value: Seq<u8>,
}

impl View for HeaderField {
    type V = HeaderFieldView;

    open spec fn view(&self) -> HeaderFieldView {
        HeaderFieldView { name: self.name@, value: self.value@ }
    }
}

/// A response as the transport received it.
#[derive(Debug, PartialEq, Eq)]
pub struct HttpResponse {
    pub status: u16,
    /// The header lines, in the order in which they arrived.
    pub headers: Vec<HeaderField>,
    pub body: Vec<u8>,
}

/// Mathematical model of an `HttpResponse`.
pub struct HttpResponseView {
    pub status: u16,
    pub headers: Seq<HeaderFieldView>,
    pub body: Seq<u8>,
}

impl View for HttpResponse {
    type V = HttpResponseView;

    open spec fn view(&self) -> HttpResponseView {
        HttpResponseView {
            status: self.status,
            headers: each_view(self.headers@),
            body: self.body@,
        }
    }
}

/// Whether `status` lies in the success class, 200 to 299.
pub open spec fn is_success_status(status: u16) -> bool {
    200 <= status < 300
}

/// The value of the first header line called `name`, letter case aside.
pub open spec fn first_header(headers: Seq<HeaderFieldView>, name: Seq<char>) -> Option<Seq<u8>>
    decreases headers.len(),
{
    if headers.len() == 0 {
        None
    } else if same_ignoring_ascii_case(headers[0].name, name) {
        Some(headers[0].value)
    } else {
        first_header(headers.drop_first(), name)
    }
}

/// The text of the first header line called `name`. There is none when no
/// line has that name, and none when the first such line does not hold text.
pub open spec fn header_text(headers: Seq<HeaderFieldView>, name: Seq<char>) -> Option<Seq<char>> {
    match first_header(headers, name) {
        Some(value) => if all_visible_ascii(value) {
            Some(ascii_text(value))
        } else {
            None
        },
        None => None,
    }
}

impl HttpResponseView {
    /// Whether the status reports success.
    pub open spec fn is_success(self) -> bool {
        is_success_status(self.status)
    }

    /// The text of the first header line called `name`.
    pub open spec fn header(self, name: Seq<char>) -> Option<Seq<char>> {
        header_text(self.headers, name)
    }
}

impl HttpResponse {
    /// Tells whether the status reports success.
    pub fn is_success(&self) -> (r: bool)
        ensures
            r == self@.is_success(),
    {
        200 <= self.status && self.status < 300
    }

    /// Looks a header up by name and reads its value as text.
    pub fn header(&self, name: &str) -> (r: Option<String>)
        ensures
            match r {
                Some(text) => self@.header(name@) == Some(text@),
                None => self@.header(name@) is None,
            },
    {
        let ghost all = self@.headers;
        let mut i: usize = 0;
        assert(all.skip(0) == all);
        while i < self.headers.len()
            invariant
                i <= self.headers@.len(),
                all == self@.headers,
                first_header(all, name@) == first_header(all.skip(i as int), name@),
            decreases self.headers@.len() - i,
        {
            let field = &self.headers[i];
            proof {
                assert(all.skip(i as int)[0] == field@);
                assert(all.skip(i as int).drop_first() == all.skip(i + 1));
            }
            if text_eq_ignore_ascii_case(field.name.as_str(), name) {
                return visible_ascii_text(field.value.as_slice());
            }
            i = i + 1;
        }
        None
    }
}

} // verus!
