//! From a request path to a location inside the asset directory.
//!
//! A request path is trimmed of its leading slashes and percent-decoded. What
//! is left is cut at every slash. Empty segments and `.` are dropped. A path
//! is refused when it still starts with a slash after decoding, when any
//! segment is `..`, or when a segment is not well-formed UTF-8. The segments
//! that remain name directories and a file below the asset directory.
//!
//! Paths are read as on a Unix file system: `/` is the only separator, and
//! every other byte, `\` and `:` included, is part of a name. On such a file
//! system none of the remaining segments can lead out of the asset
//! directory. Where `\` also separates or a name such as `c:` is a drive
//! prefix, that does not follow, and the caller has to refuse such segments
//! before it joins them to a directory.

use vstd::prelude::*;
use vstd::slice::*;
use vstd::utf8::*;
use crate::decode::{percent_decode, percent_decoded};
use crate::text::{str_from_utf8, utf8_bytes};

verus! {

/// The byte `/`, which separates segments.
pub const SLASH: u8 = 0x2f;

/// The byte `.`.
pub const DOT: u8 = 0x2e;

/// `s` without its leading slashes.
pub open spec fn trim_slashes(s: Seq<u8>) -> Seq<u8>
    decreases s.len(),
{
    if s.len() > 0 && s[0] == SLASH {
        trim_slashes(s.skip(1))
    } else {
        s
    }
}

/// The pieces of `s` between its slashes, in order. A slash closes the current
/// piece and opens a new, empty one; any other byte is added to the current
/// piece. So `n` slashes give `n + 1` pieces, some of which may be empty.
pub open spec fn split_on_slash(s: Seq<u8>) -> Seq<Seq<u8>>
    decreases s.len(),
{
    if s.len() == 0 {
        seq![Seq::empty()]
    } else {
        let before = split_on_slash(s.drop_last());
        if s.last() == SLASH {
            before.push(Seq::empty())
        } else {
            before.drop_last().push(before.last().push(s.last()))
        }
    }
}

/// Whether a piece names nothing: it is empty or it is `.`.
pub open spec fn is_skipped(piece: Seq<u8>) -> bool {
    piece.len() == 0 || piece == seq![DOT]
}

/// Whether a piece is `..`, the parent directory.
pub open spec fn is_parent(piece: Seq<u8>) -> bool {
    piece == seq![DOT, DOT]
}

/// Whether a piece may stand in a resolved path: it names something, it is
/// not the parent directory, it holds no slash and it is well-formed UTF-8.
/// Other bytes are not looked at: where `/` is the only separator, such a
/// piece names an entry of the directory it is joined to, and nothing else.
pub open spec fn is_plain_segment(piece: Seq<u8>) -> bool {
    &&& !is_skipped(piece)
    &&& !is_parent(piece)
    &&& !piece.contains(SLASH)
    &&& valid_utf8(piece)
}

/// Whether a path has to be refused for one of its pieces.
pub open spec fn has_refused_piece(pieces: Seq<Seq<u8>>) -> bool {
    exists|i: int|
        0 <= i < pieces.len() && (is_parent(#[trigger] pieces[i]) || !valid_utf8(pieces[i]))
}

/// The pieces that name something, in order.
pub open spec fn named_pieces(pieces: Seq<Seq<u8>>) -> Seq<Seq<u8>>
    decreases pieces.len(),
{
    if pieces.len() == 0 {
        Seq::empty()
    } else if is_skipped(pieces.last()) {
        named_pieces(pieces.drop_last())
    } else {
        named_pieces(pieces.drop_last()).push(pieces.last())
    }
}

/// The request path after trimming and decoding.
pub open spec fn decoded_path(path: Seq<u8>) -> Seq<u8> {
    percent_decoded(trim_slashes(path))
}

/// Whether the decoded path is absolute.
pub open spec fn is_rooted(decoded: Seq<u8>) -> bool {
    decoded.len() > 0 && decoded[0] == SLASH
}

/// Where a request path leads below the asset directory: the segments to
/// descend by, or `None` when the path is refused.
pub open spec fn resolved(path: Seq<u8>) -> Option<Seq<Seq<u8>>> {
    let decoded = decoded_path(path);
    let pieces = split_on_slash(decoded);
    if is_rooted(decoded) || has_refused_piece(pieces) {
        None
    } else {
        Some(named_pieces(pieces))
    }
}

/// A location below the asset directory, as the segments to descend by.
pub struct AssetPath {
    segments: Vec<String>,
}

impl AssetPath {
    /// The UTF-8 bytes of each segment, in order.
    pub closed spec fn view(&self) -> Seq<Seq<u8>> {
        Seq::new(self.segments@.len(), |i: int| utf8_bytes(self.segments@[i]@))
    }

    #[verifier::type_invariant]
    spec fn plain(&self) -> bool {
        forall|i: int| 0 <= i < self.segments@.len() ==> is_plain_segment(
            utf8_bytes(#[trigger] self.segments@[i]@),
        )
    }

    /// The segments, in order.
    pub fn segments(&self) -> (r: &Vec<String>)
        ensures
            r@.len() == self@.len(),
            forall|i: int| 0 <= i < r@.len() ==> utf8_bytes(#[trigger] r@[i]@) == self@[i],
            forall|i: int| 0 <= i < self@.len() ==> is_plain_segment(#[trigger] self@[i]),
    {
        proof {
            use_type_invariant(self);
        }
        &self.segments
    }
}

/// No piece of a split holds a slash.
pub proof fn lemma_pieces_hold_no_slash(s: Seq<u8>)
    ensures
        split_on_slash(s).len() > 0,
        forall|k: int|
            0 <= k < split_on_slash(s).len() ==> !(#[trigger] split_on_slash(s)[k]).contains(SLASH),
    decreases s.len(),
{
    if s.len() > 0 {
        lemma_pieces_hold_no_slash(s.drop_last());
        let before = split_on_slash(s.drop_last());
        if s.last() != SLASH {
            let grown = before.last().push(s.last());
            assert forall|j: int| 0 <= j < grown.len() implies grown[j] != SLASH by {
                if j < before.last().len() {
                    assert(before.last().contains(before.last()[j]));
                }
            }
        }
    }
}

/// The views of a vector of byte vectors.
pub open spec fn pieces_view(v: Seq<Vec<u8>>) -> Seq<Seq<u8>> {
    Seq::new(v.len(), |i: int| v[i]@)
}

/// The number of slashes that `bytes` starts with.
pub fn leading_slashes(bytes: &[u8]) -> (k: usize)
    ensures
        k <= bytes@.len(),
        bytes@.skip(k as int) == trim_slashes(bytes@),
{
    let n = bytes.len();
    let mut k: usize = 0;
    proof {
        assert(bytes@.skip(0) =~= bytes@);
    }
    while k < n && bytes[k] == SLASH
        invariant
            n == bytes@.len(),
            k <= n,
            trim_slashes(bytes@.skip(k as int)) == trim_slashes(bytes@),
        decreases n - k,
    {
        proof {
            assert(bytes@.skip(k as int).skip(1) =~= bytes@.skip(k + 1));
        }
        k = k + 1;
    }
    k
}

/// Cuts `bytes` at every slash.
pub fn split(bytes: &[u8]) -> (pieces: Vec<Vec<u8>>)
    ensures
        pieces_view(pieces@) == split_on_slash(bytes@),
{
    let n = bytes.len();
    let mut done: Vec<Vec<u8>> = Vec::new();
    let mut current: Vec<u8> = Vec::new();
    let mut i: usize = 0;
    proof {
        assert(bytes@.take(0) =~= Seq::<u8>::empty());
        assert(pieces_view(done@).push(current@) =~= split_on_slash(bytes@.take(0)));
    }
    while i < n
        invariant
            n == bytes@.len(),
            i <= n,
            pieces_view(done@).push(current@) == split_on_slash(bytes@.take(i as int)),
        decreases n - i,
    {
        let b = bytes[i];
        let ghost before = split_on_slash(bytes@.take(i as int));
        let ghost old_done = pieces_view(done@);
        let ghost old_current = current@;
        proof {
            assert(bytes@.take(i + 1).drop_last() =~= bytes@.take(i as int));
            assert(bytes@.take(i + 1).last() == b);
            assert(before.drop_last() =~= old_done);
            assert(before.last() == old_current);
        }
        if b == SLASH {
            done.push(current);
            current = Vec::new();
            proof {
                assert(pieces_view(done@) =~= before);
                assert(pieces_view(done@).push(current@) =~= split_on_slash(bytes@.take(i + 1)));
            }
        } else {
            current.push(b);
            proof {
                assert(pieces_view(done@).push(current@) =~= split_on_slash(bytes@.take(i + 1)));
            }
        }
        i = i + 1;
    }
    proof {
        assert(bytes@.take(n as int) =~= bytes@);
    }
    let ghost last = current@;
    let ghost closed = pieces_view(done@);
    done.push(current);
    proof {
        assert(pieces_view(done@) =~= closed.push(last));
    }
    done
}

/// Whether a piece is empty or `.`.
pub fn piece_is_skipped(piece: &[u8]) -> (r: bool)
    ensures
        r == is_skipped(piece@),
{
    let r = piece.len() == 0 || (piece.len() == 1 && piece[0] == DOT);
    proof {
        if piece@.len() == 1 && piece@[0] == DOT {
            assert(piece@ =~= seq![DOT]);
        }
    }
    r
}

/// Whether a piece is `..`.
pub fn piece_is_parent(piece: &[u8]) -> (r: bool)
    ensures
        r == is_parent(piece@),
{
    let r = piece.len() == 2 && piece[0] == DOT && piece[1] == DOT;
    proof {
        if r {
            assert(piece@ =~= seq![DOT, DOT]);
        }
    }
    r
}

/// Resolves a request path to a location below the asset directory, or
/// refuses it.
pub fn resolve(path: &str) -> (r: Option<AssetPath>)
    ensures
        r is Some <==> resolved(utf8_bytes(path@)) is Some,
        r matches Some(p) ==> Some(p@) == resolved(utf8_bytes(path@)),
{
    let raw = path.as_bytes();
    let start = leading_slashes(raw);
    let decoded = percent_decode(slice_subrange(raw, start, raw.len()));
    if decoded.len() > 0 && decoded[0] == SLASH {
        return None;
    }
    let pieces = split(decoded.as_slice());
    let ghost all = pieces_view(pieces@);
    proof {
        assert(raw@.subrange(start as int, raw@.len() as int) =~= raw@.skip(start as int));
        assert(decoded@ == decoded_path(utf8_bytes(path@)));
        assert(all == split_on_slash(decoded@));
        lemma_pieces_hold_no_slash(decoded@);
    }
    let n = pieces.len();
    let mut segments: Vec<String> = Vec::new();
    let mut j: usize = 0;
    proof {
        assert(all.take(0) =~= Seq::<Seq<u8>>::empty());
    }
    while j < n
        invariant
            n == pieces@.len(),
            j <= n,
            all == pieces_view(pieces@),
            all == split_on_slash(decoded_path(utf8_bytes(path@))),
            forall|k: int| 0 <= k < all.len() ==> !(#[trigger] all[k]).contains(SLASH),
            forall|k: int| 0 <= k < j ==> !is_parent(#[trigger] all[k]) && valid_utf8(all[k]),
            segments@.len() == named_pieces(all.take(j as int)).len(),
            forall|k: int|
                0 <= k < segments@.len() ==> utf8_bytes(#[trigger] segments@[k]@) == named_pieces(
                    all.take(j as int),
                )[k],
            forall|k: int|
                0 <= k < segments@.len() ==> is_plain_segment(
                    utf8_bytes(#[trigger] segments@[k]@),
                ),
        decreases n - j,
    {
        let piece = pieces[j].as_slice();
        proof {
            assert(piece@ == all[j as int]);
            assert(all.take(j + 1).drop_last() =~= all.take(j as int));
            assert(all.take(j + 1).last() == all[j as int]);
        }
        if piece_is_parent(piece) {
            return None;
        }
        match str_from_utf8(piece) {
            None => {
                return None;
            },
            Some(text) => {
                if !piece_is_skipped(piece) {
                    let segment = text.to_owned();
                    proof {
                        decode_utf8_encode_utf8(piece@);
                        assert(utf8_bytes(segment@) == piece@);
                    }
                    segments.push(segment);
                }
            },
        }
        j = j + 1;
    }
    proof {
        assert(all.take(n as int) =~= all);
        assert(!has_refused_piece(all));
    }
    let found = AssetPath { segments };
    proof {
        assert(found@ =~= named_pieces(all));
    }
    Some(found)
}

} // verus!
