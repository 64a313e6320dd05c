use vstd::prelude::*;
use vstd::utf8::{decode_utf8, valid_utf8};

use base64::engine::general_purpose;
use base64::Engine;

use crate::text::{split_spec, split_str, str_starts_with, string_views, trim_str, trimmed};

verus! {

/// What base64's standard engine (padded) decodes a string to, if it accepts it.
pub uninterp spec fn standard_decoded(s: Seq<char>) -> Option<Seq<u8>>;

/// What base64's URL-safe engine (padded) decodes a string to, if it accepts it.
pub uninterp spec fn url_safe_decoded(s: Seq<char>) -> Option<Seq<u8>>;

/// What base64's standard engine without padding decodes a string to.
pub uninterp spec fn standard_no_pad_decoded(s: Seq<char>) -> Option<Seq<u8>>;

/// What base64's URL-safe engine without padding decodes a string to.
pub uninterp spec fn url_safe_no_pad_decoded(s: Seq<char>) -> Option<Seq<u8>>;

pub open spec fn bytes_view(r: Option<Vec<u8>>) -> Option<Seq<u8>> {
    match r {
        Some(v) => Some(v@),
        None => None,
    }
}

/// Relies on base64's `general_purpose::STANDARD.decode`.
#[verifier::external_body]
fn decode_standard(s: &str) -> (r: Option<Vec<u8>>)
    ensures
        bytes_view(r) == standard_decoded(s@),
{
    general_purpose::STANDARD.decode(s).ok()
}

/// Relies on base64's `general_purpose::URL_SAFE.decode`.
#[verifier::external_body]
fn decode_url_safe(s: &str) -> (r: Option<Vec<u8>>)
    ensures
        bytes_view(r) == url_safe_decoded(s@),
{
    general_purpose::URL_SAFE.decode(s).ok()
}

/// Relies on base64's `general_purpose::STANDARD_NO_PAD.decode`.
#[verifier::external_body]
fn decode_standard_no_pad(s: &str) -> (r: Option<Vec<u8>>)
    ensures
        bytes_view(r) == standard_no_pad_decoded(s@),
{
    general_purpose::STANDARD_NO_PAD.decode(s).ok()
}

/// Relies on base64's `general_purpose::URL_SAFE_NO_PAD.decode`.
#[verifier::external_body]
fn decode_url_safe_no_pad(s: &str) -> (r: Option<Vec<u8>>)
    ensures
        bytes_view(r) == url_safe_no_pad_decoded(s@),
{
    general_purpose::URL_SAFE_NO_PAD.decode(s).ok()
}

/// Relies on std's `String::from_utf8`: it accepts exactly the valid UTF-8
/// byte strings, and the string holds the characters they encode.
#[verifier::external_body]
fn string_from_utf8(b: Vec<u8>) -> (r: Option<String>)
    ensures
        (r is Some) == valid_utf8(b@),
        r is Some ==> r->0@ == decode_utf8(b@),
{
    String::from_utf8(b).ok()
}

/// The first of the four base64 variants that accepts the text, tried in the
/// order standard, URL-safe, standard without padding, URL-safe without padding.
pub open spec fn lenient_decoded(s: Seq<char>) -> Option<Seq<u8>> {
    if standard_decoded(s) is Some {
        standard_decoded(s)
    } else if url_safe_decoded(s) is Some {
        url_safe_decoded(s)
    } else if standard_no_pad_decoded(s) is Some {
        standard_no_pad_decoded(s)
    } else {
        url_safe_no_pad_decoded(s)
    }
}

/// Decodes base64 in whichever of the four variants accepts it first.
pub fn decode_base64_lenient(s: &str) -> (r: Option<Vec<u8>>)
    ensures
        bytes_view(r) == lenient_decoded(s@),
{
    let a = decode_standard(s);
    if a.is_some() {
        return a;
    }
    let b = decode_url_safe(s);
    if b.is_some() {
        return b;
    }
    let c = decode_standard_no_pad(s);
    if c.is_some() {
        return c;
    }
    decode_url_safe_no_pad(s)
}

/// Why a link or a subscription could not be read.
#[derive(Debug, Clone, Copy, PartialEq, Eq, Structural)]
pub enum LinkError {
    /// The link does not start with `vmess://`.
    MissingScheme,
    /// No base64 variant accepts the text.
    Base64,
    /// The decoded bytes are not UTF-8.
    Utf8,
}

/// The text that decoded bytes stand for: none when nothing was decoded, and
/// none when the bytes are not UTF-8.
pub open spec fn text_of_bytes(bytes: Option<Seq<u8>>) -> Result<Seq<char>, LinkError> {
    match bytes {
        None => Err(LinkError::Base64),
        Some(b) => if valid_utf8(b) {
            Ok(decode_utf8(b))
        } else {
            Err(LinkError::Utf8)
        },
    }
}

/// The text that base64 text stands for, or why it stands for none.
pub open spec fn decoded_text(s: Seq<char>) -> Result<Seq<char>, LinkError> {
    text_of_bytes(lenient_decoded(s))
}

pub open spec fn text_view(r: Result<String, LinkError>) -> Result<Seq<char>, LinkError> {
    match r {
        Ok(s) => Ok(s@),
        Err(e) => Err(e),
    }
}

/// Reads the outcome of a base64 decoding as UTF-8 text.
pub fn text_from_decoded(bytes: Option<Vec<u8>>) -> (r: Result<String, LinkError>)
    ensures
        text_view(r) == text_of_bytes(bytes_view(bytes)),
{
    match bytes {
        None => Err(LinkError::Base64),
        Some(b) => match string_from_utf8(b) {
            Some(t) => Ok(t),
            None => Err(LinkError::Utf8),
        },
    }
}

/// Decodes base64 text to a string.
pub fn decode_base64_text(s: &str) -> (r: Result<String, LinkError>)
    ensures
        text_view(r) == decoded_text(s@),
{
    text_from_decoded(decode_base64_lenient(s))
}

/// The scheme every node link starts with.
pub open spec fn scheme() -> Seq<char> {
    seq!['v', 'm', 'e', 's', 's', ':', '/', '/']
}

pub open spec fn has_scheme(s: Seq<char>) -> bool {
    scheme().len() <= s.len() && s.subrange(0, scheme().len() as int) == scheme()
}

/// The JSON text a node link carries: the link is trimmed, must start with
/// `vmess://`, and the rest is base64 of UTF-8.
pub open spec fn link_payload_spec(link: Seq<char>) -> Result<Seq<char>, LinkError> {
    let t = trimmed(link);
    if !has_scheme(t) {
        Err(LinkError::MissingScheme)
    } else {
        decoded_text(t.subrange(8, t.len() as int))
    }
}

/// Reads the JSON text out of a `vmess://` link.
pub fn decode_link_payload(link: &str) -> (r: Result<String, LinkError>)
    ensures
        text_view(r) == link_payload_spec(link@),
{
    let t = trim_str(link);
    proof {
        reveal_strlit("vmess://");
    }
    let prefix = "vmess://";
    assert(prefix@ =~= scheme());
    if !str_starts_with(t, prefix) {
        return Err(LinkError::MissingScheme);
    }
    let rest = t.substring_char(8, t.unicode_len());
    decode_base64_text(rest)
}

/// Of the trimmed lines, those that are node links, in order.
pub open spec fn keep_links(lines: Seq<Seq<char>>) -> Seq<Seq<char>>
    decreases lines.len(),
{
    if lines.len() == 0 {
        Seq::empty()
    } else {
        let rest = keep_links(lines.drop_last());
        let t = trimmed(lines.last());
        if has_scheme(t) {
            rest.push(t)
        } else {
            rest
        }
    }
}

/// The node links a subscription body carries: the body is trimmed and
/// decoded from base64, and each of its lines that starts with `vmess://`
/// once trimmed is a link.
pub open spec fn subscription_links_spec(content: Seq<char>) -> Result<Seq<Seq<char>>, LinkError> {
    match decoded_text(trimmed(content)) {
        Ok(text) => Ok(keep_links(split_spec(text, '\n'))),
        Err(e) => Err(e),
    }
}

pub open spec fn links_view(r: Result<Vec<String>, LinkError>) -> Result<Seq<Seq<char>>, LinkError> {
    match r {
        Ok(v) => Ok(string_views(v@)),
        Err(e) => Err(e),
    }
}

/// The node links in a decoded subscription: each line that starts with
/// `vmess://` once trimmed, trimmed, in order.
pub fn links_in_text(text: &str) -> (r: Vec<String>)
    ensures
        string_views(r@) == keep_links(split_spec(text@, '\n')),
{
    let lines = split_str(text, '\n');
    proof {
        reveal_strlit("vmess://");
    }
    let prefix = "vmess://";
    assert(prefix@ =~= scheme());
    let mut links: Vec<String> = Vec::new();
    let mut i: usize = 0;
    assert(string_views(links@) =~= keep_links(string_views(lines@).subrange(0, 0)));
    while i < lines.len()
        invariant
            i <= lines@.len(),
            prefix@ == scheme(),
            string_views(links@) == keep_links(string_views(lines@).subrange(0, i as int)),
        decreases lines@.len() - i,
    {
        let ghost before = links@;
        let ghost upto = string_views(lines@).subrange(0, i + 1);
        assert(upto.drop_last() =~= string_views(lines@).subrange(0, i as int));
        assert(upto.last() == lines@[i as int]@);
        let t = trim_str(lines[i].as_str());
        if str_starts_with(t, prefix) {
            let link = String::from_str(t);
            links.push(link);
            assert(string_views(links@) =~= string_views(before).push(link@));
        }
        i = i + 1;
    }
    assert(string_views(lines@).subrange(0, i as int) =~= string_views(lines@));
    links
}

/// Reads the node links out of a subscription body.
pub fn subscription_links(content: &str) -> (r: Result<Vec<String>, LinkError>)
    ensures
        links_view(r) == subscription_links_spec(content@),
{
    match decode_base64_text(trim_str(content)) {
        Ok(text) => Ok(links_in_text(text.as_str())),
        Err(e) => Err(e),
    }
}

} // verus!
