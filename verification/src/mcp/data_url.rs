//! Data URLs, in which a tool hands over its images.
use vstd::prelude::*;

use crate::text::{split_at_first, strip_prefix};

verus! {

/// The media type assumed where a URL names none.
pub const DEFAULT_MEDIA_TYPE: &'static str = "image/webp";

/// The media type that the part of a URL before its comma names: what stands
/// between `data:` and the first semicolon. It is [`DEFAULT_MEDIA_TYPE`] where
/// the part does not start with `data:` or names an empty type.
pub open spec fn media_type(meta: Seq<char>) -> Seq<char> {
    let scheme = "data:"@;
    let rest = meta.skip(scheme.len() as int);
    let named = rest.take(crate::text::position(rest, ';'));
    if scheme.is_prefix_of(meta) && named.len() > 0 {
        named
    } else {
        DEFAULT_MEDIA_TYPE@
    }
}

/// The media type and the payload of a URL, which its first comma parts;
/// nothing where it has no comma.
pub open spec fn data_url_parts(url: Seq<char>) -> Option<(Seq<char>, Seq<char>)> {
    let comma = crate::text::position(url, ',');
    if comma < url.len() {
        Some((media_type(url.take(comma)), url.skip(comma + 1)))
    } else {
        None
    }
}

/// The URL that carries a base64 payload of the given media type.
pub open spec fn data_url(mime: Seq<char>, payload: Seq<char>) -> Seq<char> {
    "data:"@ + mime + ";base64,"@ + payload
}

/// The characters of the two parts of a split URL.
pub open spec fn part_texts(parts: Option<(String, String)>) -> Option<(Seq<char>, Seq<char>)> {
    match parts {
        Some((mime, data)) => Some((mime@, data@)),
        None => None,
    }
}

/// Splits a `data:<mime>;base64,<payload>` URL into its parts.
pub fn split_data_url(data_url: &str) -> (parts: Option<(String, String)>)
    ensures
        part_texts(parts) == data_url_parts(data_url@),
{
    let (meta, data) = match split_at_first(data_url, ',') {
        Some(parts) => parts,
        None => {
            return None;
        },
    };
    let mime = match strip_prefix(meta, "data:") {
        Some(rest) => {
            assert(rest@ =~= meta@.skip("data:"@.len() as int));
            let named = match split_at_first(rest, ';') {
                Some((named, _)) => named,
                None => rest,
            };
            assert(named@ =~= rest@.take(crate::text::position(rest@, ';')));
            if named.is_empty() {
                DEFAULT_MEDIA_TYPE
            } else {
                named
            }
        },
        None => DEFAULT_MEDIA_TYPE,
    };
    Some((mime.to_owned(), data.to_owned()))
}

/// Splitting a URL gives back the media type and the payload that it was made
/// of, whatever the payload holds, for every media type that is not empty and
/// holds no comma and no semicolon.
pub proof fn law_split_inverts_data_url(mime: Seq<char>, payload: Seq<char>)
    requires
        mime.len() > 0,
        !mime.contains(','),
        !mime.contains(';'),
    ensures
        data_url_parts(data_url(mime, payload)) == Some((mime, payload)),
{
    reveal_strlit("data:");
    reveal_strlit(";base64,");
    let url = data_url(mime, payload);
    let scheme = "data:"@;
    let comma = (scheme.len() + mime.len() + 7) as int;
    assert forall|i: int| 0 <= i < comma implies url[i] != ',' by {
        if scheme.len() <= i < scheme.len() + mime.len() {
            assert(url[i] == mime[i - scheme.len()]);
        }
    }
    crate::text::lemma_position_unique(url, ',', comma);
    assert(url.skip(comma + 1) =~= payload);
    let meta = url.take(comma);
    assert(scheme =~= meta.subrange(0, scheme.len() as int));
    let rest = meta.skip(scheme.len() as int);
    assert(rest =~= mime + ";base64"@) by {
        reveal_strlit(";base64");
    }
    assert forall|i: int| 0 <= i < mime.len() implies rest[i] != ';' by {
        assert(rest[i] == mime[i]);
    }
    crate::text::lemma_position_unique(rest, ';', mime.len() as int);
    assert(rest.take(mime.len() as int) =~= mime);
}

/// A URL splits exactly where it holds a comma, and the media type it yields is
/// never empty.
pub proof fn law_split_needs_a_comma(url: Seq<char>)
    ensures
        data_url_parts(url) is Some <==> url.contains(','),
        data_url_parts(url) matches Some((mime, _)) ==> mime.len() > 0,
{
    reveal_strlit("image/webp");
    crate::text::lemma_position(url, ',');
}

} // verus!
