//! What holds of every request.

use vstd::prelude::*;
use vstd::utf8::*;
use crate::asset::{
    decoded_path, has_refused_piece, is_parent, is_plain_segment, lemma_pieces_hold_no_slash,
    named_pieces, resolved, split_on_slash, trim_slashes, DOT, SLASH,
};
use crate::decode::{lemma_percent_decoded_plain, PERCENT};
use crate::config::{default_site_addr, given_or};
use crate::handler::{answered, diagnostic_path, routed, ActionView, Method};
use crate::response::{diagnostic_view, file_view, not_found_view, timed_out_view};
use crate::text::utf8_bytes;

verus! {

/// Whether a request path, once trimmed and decoded, holds the segment `..`.
pub open spec fn has_parent_segment(path: Seq<char>) -> bool {
    let pieces = split_on_slash(decoded_path(utf8_bytes(path)));
    exists|i: int| 0 <= i < pieces.len() && is_parent(#[trigger] pieces[i])
}

/// Trimming adds no byte.
proof fn lemma_trim_adds_nothing(s: Seq<u8>, b: u8)
    requires
        !s.contains(b),
    ensures
        !trim_slashes(s).contains(b),
    decreases s.len(),
{
    if s.len() > 0 && s[0] == SLASH {
        assert forall|i: int| 0 <= i < s.skip(1).len() implies s.skip(1)[i] != b by {
            assert(s.contains(s[i + 1]));
        }
        lemma_trim_adds_nothing(s.skip(1), b);
    }
}

/// Bytes without a dot have no piece `..`.
proof fn lemma_no_dot_no_parent(s: Seq<u8>)
    requires
        !s.contains(DOT),
    ensures
        forall|k: int|
            0 <= k < split_on_slash(s).len() ==> !is_parent(#[trigger] split_on_slash(s)[k]),
    decreases s.len(),
{
    if s.len() > 0 {
        assert forall|i: int| 0 <= i < s.drop_last().len() implies s.drop_last()[i] != DOT by {
            assert(s.contains(s[i]));
        }
        lemma_no_dot_no_parent(s.drop_last());
        assert(s.contains(s.last()));
        let before = split_on_slash(s.drop_last());
        let grown = before.last().push(s.last());
        assert(grown.last() != DOT);
        assert(seq![DOT, DOT].last() == DOT);
    } else {
        assert(split_on_slash(s)[0].len() == 0);
    }
}

/// The liveness path holds no segment `..`.
proof fn lemma_diagnostic_path_has_no_parent()
    ensures
        !has_parent_segment(diagnostic_path()),
{
    reveal_strlit("/api/test");
    let chars = diagnostic_path();
    assert(is_ascii_chars(chars));
    is_ascii_chars_encode_utf8(chars);
    let bytes = utf8_bytes(chars);
    assert(bytes.len() == 9);
    assert forall|i: int| 0 <= i < bytes.len() implies bytes[i] != DOT && bytes[i] != PERCENT by {
        assert(bytes[i] == chars[i] as u8);
    }
    lemma_trim_adds_nothing(bytes, DOT);
    lemma_trim_adds_nothing(bytes, PERCENT);
    let trimmed = trim_slashes(bytes);
    assert forall|i: int| 0 <= i < trimmed.len() implies trimmed[i] != PERCENT by {
        assert(trimmed.contains(trimmed[i]));
    }
    lemma_percent_decoded_plain(trimmed);
    lemma_no_dot_no_parent(trimmed);
}

/// The named pieces of pieces that hold no slash, no `..` and only
/// well-formed text are plain segments.
proof fn lemma_named_pieces_are_plain(pieces: Seq<Seq<u8>>)
    requires
        forall|k: int|
            0 <= k < pieces.len() ==> !(#[trigger] pieces[k]).contains(SLASH)
                && !is_parent(pieces[k]) && valid_utf8(pieces[k]),
    ensures
        forall|k: int|
            0 <= k < named_pieces(pieces).len() ==> is_plain_segment(
                #[trigger] named_pieces(pieces)[k],
            ),
    decreases pieces.len(),
{
    if pieces.len() > 0 {
        lemma_named_pieces_are_plain(pieces.drop_last());
        let last = pieces[pieces.len() - 1];
        assert(!last.contains(SLASH) && !is_parent(last) && valid_utf8(last));
        assert forall|k: int| 0 <= k < named_pieces(pieces).len() implies is_plain_segment(
            #[trigger] named_pieces(pieces)[k],
        ) by {
            if k < named_pieces(pieces.drop_last()).len() {
                assert(named_pieces(pieces)[k] == named_pieces(pieces.drop_last())[k]);
            }
        }
    }
}

/// Every segment of a resolved path is plain: it names something, it is not
/// `..`, and it holds no slash. Where `/` is the only separator, descending
/// by such segments never leaves the directory one starts in.
pub proof fn law_resolved_path_is_plain(path: Seq<u8>)
    ensures
        resolved(path) matches Some(location) ==> forall|k: int|
            0 <= k < location.len() ==> is_plain_segment(#[trigger] location[k]),
{
    let pieces = split_on_slash(decoded_path(path));
    lemma_pieces_hold_no_slash(decoded_path(path));
    if resolved(path) is Some {
        lemma_named_pieces_are_plain(pieces);
    }
}

/// A file that exists is served as it is: when a GET or HEAD request's path
/// is not the liveness path and resolves to a location, the server looks
/// that location up, and a regular file found there comes back with status
/// 200 and exactly its bytes as the body.
pub proof fn law_existing_file_is_served(method: Method, path: Seq<char>, contents: Seq<u8>)
    requires
        !(method is Other),
        path != diagnostic_path(),
        resolved(utf8_bytes(path)) is Some,
    ensures
        routed(method, path) == ActionView::Lookup(resolved(utf8_bytes(path))->0),
        answered(method, resolved(utf8_bytes(path))->0, Some(contents)).status == 200,
        answered(method, resolved(utf8_bytes(path))->0, Some(contents)).body == contents,
{
}

/// A path with a parent-directory segment is never looked up: whatever the
/// method, the reply is given at once, and it is the not-found page.
pub proof fn law_traversal_is_refused(method: Method, path: Seq<char>)
    requires
        has_parent_segment(path),
    ensures
        routed(method, path) == ActionView::Respond(not_found_view()),
{
    lemma_diagnostic_path_has_no_parent();
    assert(has_refused_piece(split_on_slash(decoded_path(utf8_bytes(path)))));
}

/// Whatever is looked up lies inside the asset directory: every segment of
/// the location is plain.
pub proof fn law_lookup_stays_inside(method: Method, path: Seq<char>)
    ensures
        routed(method, path) matches ActionView::Lookup(location) ==> forall|k: int|
            0 <= k < location.len() ==> is_plain_segment(#[trigger] location[k]),
{
    law_resolved_path_is_plain(utf8_bytes(path));
}

/// A GET or HEAD request for the liveness path gets the liveness reply,
/// status 200 and the fixed greeting, without any lookup.
pub proof fn law_diagnostic_needs_no_lookup(method: Method)
    requires
        !(method is Other),
    ensures
        routed(method, diagnostic_path()) == ActionView::Respond(diagnostic_view()),
        diagnostic_view().status == 200,
        diagnostic_view().body == utf8_bytes("hello from axum"@),
{
}

/// A path with no file behind it gets exactly the not-found page, whatever
/// the method: a refused path gets it before any lookup, a resolved path is
/// looked up and gets it when no regular file is found. Only the liveness
/// path is answered otherwise.
pub proof fn law_missing_file_is_not_found(method: Method, path: Seq<char>)
    requires
        path != diagnostic_path(),
    ensures
        resolved(utf8_bytes(path)) is None ==> routed(method, path) == ActionView::Respond(
            not_found_view(),
        ),
        resolved(utf8_bytes(path)) matches Some(location) ==> routed(method, path)
            == ActionView::Lookup(location) && answered(method, location, None)
            == not_found_view(),
        not_found_view().status == 404,
        not_found_view().body == utf8_bytes("<h1>404 Not Found</h1>"@),
{
}

/// The not-found page is the only reply that a lookup which found nothing
/// can end in: it depends neither on the method nor on the location.
pub proof fn law_not_found_ignores_the_request(method: Method, location: Seq<Seq<u8>>)
    ensures
        answered(method, location, None) == not_found_view(),
{
}

/// An address that is given and not empty is the address to bind, as it
/// is: no other address is ever put in its place.
pub proof fn law_given_address_is_kept(address: Seq<char>)
    requires
        address.len() > 0,
    ensures
        given_or(Some(address), default_site_addr()) == address,
{
}

/// The reply to a request that ran out of time has status 503 and is
/// neither the not-found page nor a reply that carries a file.
pub proof fn law_timed_out_is_its_own_reply(guess: Option<Seq<char>>, contents: Seq<u8>)
    ensures
        timed_out_view().status == 503,
        timed_out_view() != not_found_view(),
        timed_out_view() != file_view(guess, contents),
{
}

} // verus!
