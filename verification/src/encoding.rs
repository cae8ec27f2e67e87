//! Identifiers: the text a feed or an article is known by in the store.

use vstd::prelude::*;
use crate::token::precedes;

verus! {

/// The token that stands above every identifier; asking for the rows below it asks for
/// the first page of a listing ordered by identifier.
pub const MAX_ID: &'static str = "~";

/// The URL-safe, padded base64 text of the UTF-8 bytes of `data`.
pub uninterp spec fn url_safe_base64(data: Seq<char>) -> Seq<char>;

/// A character of the URL-safe base64 alphabet, or the padding character.
pub open spec fn url_safe_char(c: char) -> bool {
    ||| 'A' <= c <= 'Z'
    ||| 'a' <= c <= 'z'
    ||| '0' <= c <= '9'
    ||| c == '-'
    ||| c == '_'
    ||| c == '='
}

/// A text written in the URL-safe base64 alphabet and its padding character alone.
pub open spec fn url_safe_text(text: Seq<char>) -> bool {
    forall|i: int| 0 <= i < text.len() ==> url_safe_char(#[trigger] text[i])
}

/// Calls `base64::Engine::encode` on the engine `general_purpose::URL_SAFE`.
///
/// Trusted: the text handed back is the one that [`url_safe_base64`] names for the input,
/// and it is written in that engine's alphabet and padding character alone. The call
/// fails only where the encoded length does not fit in `usize`, which no string that fits
/// in memory reaches.
#[verifier::external_body]
pub(crate) fn encode_url_safe(data: &str) -> (text: String)
    ensures
        text@ == url_safe_base64(data@),
        url_safe_text(text@),
{
    base64::Engine::encode(&base64::engine::general_purpose::URL_SAFE, data)
}

/// Every identifier written in the URL-safe base64 alphabet sorts below `MAX_ID`.
pub proof fn law_id_sorts_below_max_id(id: Seq<char>)
    requires
        url_safe_text(id),
    ensures
        precedes(id, MAX_ID@),
{
    reveal_strlit("~");
    assert(MAX_ID@.len() == 1);
    assert(MAX_ID@[0] == '~');
    if id.len() > 0 {
        assert(url_safe_char(id[0]));
    }
}

} // verus!
