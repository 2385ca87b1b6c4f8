use vstd::prelude::*;

use crate::json::str_equals;
use crate::search::optional_str_view;

verus! {

/// How a resolved magnet link's torrent is answered.
#[derive(Debug, Clone, Copy, PartialEq, Eq, Structural)]
pub enum MagnetResponseFormat {
    /// The decoded torrent as JSON.
    Json,
    /// The raw `.torrent` file.
    Torrent,
}

impl MagnetResponseFormat {
    /// The `Content-Type` of the answer.
    pub fn content_type(&self) -> (res: &'static str)
        ensures
            res@ == match self {
                MagnetResponseFormat::Json => "application/json"@,
                MagnetResponseFormat::Torrent => "application/x-bittorrent"@,
            },
    {
        match self {
            MagnetResponseFormat::Json => "application/json",
            MagnetResponseFormat::Torrent => "application/x-bittorrent",
        }
    }
}

/// Picks the answer format from the request's `Accept` header (as text, where
/// it is UTF-8): JSON exactly when it is `application/json`.
pub fn magnet_response_format(accept: Option<&str>) -> (res: MagnetResponseFormat)
    ensures
        (res is Json) <==> optional_str_view(accept) == Some("application/json"@),
{
    match accept {
        Some(a) => if str_equals(a, "application/json") {
            MagnetResponseFormat::Json
        } else {
            MagnetResponseFormat::Torrent
        },
        None => MagnetResponseFormat::Torrent,
    }
}

/// Whether a character may stand in an HTTP header value: a tab, or any
/// character from space upwards except DEL.
pub open spec fn header_value_char(c: char) -> bool {
    (c >= ' ' && c != '\x7f') || c == '\t'
}

/// Whether a text is a valid HTTP header value.
pub open spec fn spec_header_value_valid(s: Seq<char>) -> bool {
    forall|i: int| 0 <= i < s.len() ==> header_value_char(#[trigger] s[i])
}

/// Tries `http::HeaderValue::from_str`. Claimed, from its source: it succeeds
/// exactly when every byte of the text is a tab or at least 32 and not 127;
/// since every byte of a multi-byte UTF-8 character is at least 128, that is
/// [`spec_header_value_valid`] of the characters.
#[verifier::external_body]
fn header_value_is_valid(s: &str) -> (res: bool)
    ensures
        res == spec_header_value_valid(s@),
{
    http::HeaderValue::from_str(s).is_ok()
}

/// The `Content-Disposition` value naming the torrent file.
pub open spec fn spec_attachment_text(name: Seq<char>) -> Seq<char> {
    "attachment; filename=\""@ + name + ".torrent\""@
}

/// The `Content-Disposition` header that offers the torrent as a download
/// named after the torrent, where that text is a valid header value.
pub fn torrent_content_disposition(name: &str) -> (res: Option<String>)
    ensures
        match res {
            Some(v) => v@ == spec_attachment_text(name@) && spec_header_value_valid(v@),
            None => !spec_header_value_valid(spec_attachment_text(name@)),
        },
{
    let mut value = "attachment; filename=\"".to_owned();
    value.append(name);
    value.append(".torrent\"");
    if header_value_is_valid(value.as_str()) {
        Some(value)
    } else {
        None
    }
}


/// The download header is the fixed opening, the name unchanged, and the
/// fixed ending.
pub proof fn lemma_attachment_text_holds_name(name: Seq<char>)
    ensures
        spec_attachment_text(name).len() == name.len() + 31,
        spec_attachment_text(name).subrange(0, 22) == seq!['a', 't', 't', 'a', 'c', 'h', 'm', 'e', 'n', 't', ';', ' ', 'f', 'i', 'l', 'e', 'n', 'a', 'm', 'e', '=', '"'],
        spec_attachment_text(name).subrange(22, 22 + name.len() as int) == name,
        spec_attachment_text(name).subrange(22 + name.len() as int, 31 + name.len() as int) == seq!['.', 't', 'o', 'r', 'r', 'e', 'n', 't', '"'],
{
    reveal_strlit("attachment; filename=\"");
    reveal_strlit(".torrent\"");
    assert(spec_attachment_text(name).subrange(0, 22) =~= "attachment; filename=\""@);
    assert(spec_attachment_text(name).subrange(22, 22 + name.len() as int) =~= name);
    assert(spec_attachment_text(name).subrange(22 + name.len() as int, 31 + name.len() as int) =~= ".torrent\""@);
}

} // verus!
