//! What the server does with a request.
//!
//! Handling a request takes at most two steps. [`route`] looks at the method
//! and the path and either gives the reply at once or names a location below
//! the asset directory to look up. The caller looks for a regular file there
//! and hands what it found to [`answer`], which gives the reply.
//!
//! A path with no file behind it gets the not-found page whatever the
//! method. The method matters only where there is something to serve: the
//! liveness reply and files are served to GET and HEAD alone.

use vstd::prelude::*;
use crate::asset::{resolve, resolved, AssetPath};
use crate::media::{guess_for_name, guessed_for_name};
use crate::response::{
    diagnostic, diagnostic_view, file_response, file_view, method_not_allowed,
    method_not_allowed_view, not_found, not_found_view, Response, ResponseView,
};
use crate::text::{str_equal, utf8_bytes};

verus! {

/// The request methods that the server tells apart.
#[derive(Clone, Copy, Debug, PartialEq, Eq)]
pub enum Method {
    Get,
    Head,
    Other,
}

/// What to do next for a request.
pub enum Action {
    /// Send this reply.
    Respond(Response),
    /// Look for a regular file at this location, then call [`answer`].
    Lookup(AssetPath),
}

/// What an [`Action`] is, mathematically.
pub enum ActionView {
    Respond(ResponseView),
    Lookup(Seq<Seq<u8>>),
}

impl View for Action {
    type V = ActionView;

    open spec fn view(&self) -> ActionView {
        match self {
            Action::Respond(r) => ActionView::Respond(r@),
            Action::Lookup(p) => ActionView::Lookup(p@),
        }
    }
}

/// The method that a name stands for. Names are case-sensitive.
pub open spec fn method_named(name: Seq<char>) -> Method {
    if name == "GET"@ {
        Method::Get
    } else if name == "HEAD"@ {
        Method::Head
    } else {
        Method::Other
    }
}

/// The path of the liveness probe.
pub open spec fn diagnostic_path() -> Seq<char> {
    "/api/test"@
}

/// The action for a request. The liveness path, matched exactly and before
/// decoding, gives the liveness reply to GET and HEAD and refuses any other
/// method. Any other path is resolved, whatever the method: a refused path
/// gives the not-found page, an accepted one the location to look up.
pub open spec fn routed(method: Method, path: Seq<char>) -> ActionView {
    if path == diagnostic_path() {
        if method is Other {
            ActionView::Respond(method_not_allowed_view())
        } else {
            ActionView::Respond(diagnostic_view())
        }
    } else {
        match resolved(utf8_bytes(path)) {
            Some(location) => ActionView::Lookup(location),
            None => ActionView::Respond(not_found_view()),
        }
    }
}

/// The media type guess for a location: that of its last segment.
pub open spec fn guessed_for_location(location: Seq<Seq<u8>>) -> Option<Seq<char>> {
    if location.len() == 0 {
        None
    } else {
        guessed_for_name(location.last())
    }
}

/// The reply once the lookup is done. Where no regular file was found it is
/// the not-found page, whatever the method. Where one was found, GET and
/// HEAD get the file's bytes and any other method is refused.
pub open spec fn answered(
    method: Method,
    location: Seq<Seq<u8>>,
    found: Option<Seq<u8>>,
) -> ResponseView {
    match found {
        Some(contents) => if method is Other {
            method_not_allowed_view()
        } else {
            file_view(guessed_for_location(location), contents)
        },
        None => not_found_view(),
    }
}

impl Method {
    /// Reads a method from its name.
    pub fn from_name(name: &str) -> (m: Method)
        ensures
            m == method_named(name@),
    {
        if str_equal(name, "GET") {
            Method::Get
        } else if str_equal(name, "HEAD") {
            Method::Head
        } else {
            Method::Other
        }
    }
}

/// Decides what to do with a request.
pub fn route(method: Method, path: &str) -> (a: Action)
    ensures
        a@ == routed(method, path@),
{
    if str_equal(path, "/api/test") {
        match method {
            Method::Other => Action::Respond(method_not_allowed()),
            _ => Action::Respond(diagnostic()),
        }
    } else {
        match resolve(path) {
            Some(location) => Action::Lookup(location),
            None => Action::Respond(not_found()),
        }
    }
}

/// Gives the reply for a location once the caller has looked it up. `found`
/// holds the bytes of the regular file at the location, or `None` if there
/// is no such file or it could not be read.
pub fn answer(method: Method, location: &AssetPath, found: Option<Vec<u8>>) -> (r: Response)
    ensures
        r@ == answered(method, location@, match found {
            Some(contents) => Some(contents@),
            None => None,
        }),
{
    match found {
        Some(contents) => match method {
            Method::Other => method_not_allowed(),
            _ => {
                let segments = location.segments();
                let guess = if segments.len() == 0 {
                    None
                } else {
                    guess_for_name(segments[segments.len() - 1].as_str().as_bytes())
                };
                file_response(guess, contents)
            },
        },
        None => not_found(),
    }
}

} // verus!
