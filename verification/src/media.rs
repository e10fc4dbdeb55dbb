//! The media type of a file, guessed from its name.

use vstd::prelude::*;
use vstd::slice::*;
use vstd::utf8::*;
use crate::asset::DOT;
use crate::text::str_from_utf8;

verus! {

/// The media type that `mime_guess` lists first for a file extension, or
/// `None` where it lists none. It depends on the extension alone.
pub uninterp spec fn mime_for_extension(ext: Seq<char>) -> Option<Seq<char>>;

/// Looks an extension up in the table of the `mime_guess` crate.
///
/// Calls `mime_guess::from_ext` and takes the first entry of the guess with
/// `MimeGuess::first_raw`. Neither is verified here. The contract only gives
/// the outcome its name, [`mime_for_extension`]: the table is fixed when the
/// crate is built, so the same extension always gives the same answer.
#[verifier::external_body]
pub(crate) fn guess_mime(ext: &str) -> (r: Option<&'static str>)
    ensures
        r is Some <==> mime_for_extension(ext@) is Some,
        r matches Some(m) ==> Some(m@) == mime_for_extension(ext@),
{
    mime_guess::from_ext(ext).first_raw()
}

/// The index of the last `.` of `name` at or after index 1, or 0 if there
/// is none: a name that only starts with a dot has no extension.
pub open spec fn last_dot(name: Seq<u8>) -> int
    decreases name.len(),
{
    if name.len() <= 1 {
        0
    } else if name.last() == DOT {
        name.len() - 1
    } else {
        last_dot(name.drop_last())
    }
}

/// The extension of a file name: what follows its last dot, unless that dot
/// is the first byte of the name or the name has no dot.
pub open spec fn extension_of(name: Seq<u8>) -> Option<Seq<u8>> {
    let k = last_dot(name);
    if k == 0 {
        None
    } else {
        Some(name.skip(k + 1))
    }
}

/// Finds the extension of a file name.
pub fn extension(name: &[u8]) -> (r: Option<&[u8]>)
    ensures
        r is Some <==> extension_of(name@) is Some,
        r matches Some(ext) ==> Some(ext@) == extension_of(name@),
{
    let n = name.len();
    let mut k: usize = n;
    proof {
        assert(name@.take(n as int) =~= name@);
    }
    while k > 1
        invariant
            n == name@.len(),
            k <= n,
            last_dot(name@) == last_dot(name@.take(k as int)),
        decreases k,
    {
        proof {
            assert(name@.take(k as int).last() == name@[k - 1]);
            assert(name@.take(k as int).drop_last() =~= name@.take(k - 1));
        }
        if name[k - 1] == DOT {
            proof {
                assert(name@.subrange(k as int, n as int) =~= name@.skip(k as int));
            }
            return Some(slice_subrange(name, k, n));
        }
        k = k - 1;
    }
    None
}

/// The media type sent when none is known for a file.
pub open spec fn default_media_type() -> Seq<char> {
    "application/octet-stream"@
}

/// The media type for a guess: the guess itself, or the default.
pub open spec fn media_type_or_default(guess: Option<Seq<char>>) -> Seq<char> {
    match guess {
        Some(m) => m,
        None => default_media_type(),
    }
}

/// The guess for a file name: the table's answer for its extension, and
/// none where the name has no extension or the extension is not text.
pub open spec fn guessed_for_name(name: Seq<u8>) -> Option<Seq<char>> {
    match extension_of(name) {
        Some(ext) => if valid_utf8(ext) {
            mime_for_extension(decode_utf8(ext))
        } else {
            None
        },
        None => None,
    }
}

/// Turns a guess into the media type to send.
pub fn choose_media_type(guess: Option<&str>) -> (r: String)
    ensures
        r@ == media_type_or_default(
            match guess {
                Some(m) => Some(m@),
                None => None,
            },
        ),
{
    match guess {
        Some(m) => m.to_owned(),
        None => "application/octet-stream".to_owned(),
    }
}

/// The guess for a file name.
pub fn guess_for_name(name: &[u8]) -> (r: Option<&'static str>)
    ensures
        r is Some <==> guessed_for_name(name@) is Some,
        r matches Some(m) ==> Some(m@) == guessed_for_name(name@),
{
    match extension(name) {
        Some(ext) => match str_from_utf8(ext) {
            Some(text) => guess_mime(text),
            None => None,
        },
        None => None,
    }
}

} // verus!
