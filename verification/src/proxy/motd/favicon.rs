//! The status icon as a data URL.
use vstd::prelude::*;
use vstd::string::*;

use crate::text::push_char;

verus! {

/// The essence (`type/subtype`) of the media type that `mime_guess` guesses
/// for `path` from its extension, `application/octet-stream` where it has
/// no guess.
pub uninterp spec fn mime_essence_for_path(path: Seq<char>) -> Seq<char>;

/// `mime_guess::from_path(path).first_or_octet_stream().essence_str()`; the
/// result is named `mime_essence_for_path`.
#[verifier::external_body]
fn guess_mime_essence(path: &str) -> (essence: String)
    ensures
        essence@ == mime_essence_for_path(path@),
{
    mime_guess::from_path(path).first_or_octet_stream().essence_str().to_owned()
}

/// The character of the standard base64 alphabet for the six bits `v`.
pub open spec fn base64_char(v: int) -> char {
    if v < 26 {
        (65 + v) as char
    } else if v < 52 {
        (97 + v - 26) as char
    } else if v < 62 {
        (48 + v - 52) as char
    } else if v == 62 {
        '+'
    } else {
        '/'
    }
}

/// `bytes` in standard base64: every three bytes as four characters of six
/// bits each, a last one or two bytes padded with `=`.
pub open spec fn spec_base64(bytes: Seq<u8>) -> Seq<char>
    decreases bytes.len(),
{
    if bytes.len() == 0 {
        Seq::empty()
    } else if bytes.len() == 1 {
        let b0 = bytes[0] as int;
        seq![base64_char(b0 / 4), base64_char((b0 % 4) * 16), '=', '=']
    } else if bytes.len() == 2 {
        let b0 = bytes[0] as int;
        let b1 = bytes[1] as int;
        seq![base64_char(b0 / 4), base64_char((b0 % 4) * 16 + b1 / 16), base64_char((b1 % 16) * 4), '=']
    } else {
        let b0 = bytes[0] as int;
        let b1 = bytes[1] as int;
        let b2 = bytes[2] as int;
        seq![
            base64_char(b0 / 4),
            base64_char((b0 % 4) * 16 + b1 / 16),
            base64_char((b1 % 16) * 4 + b2 / 64),
            base64_char(b2 % 64),
        ] + spec_base64(bytes.skip(3))
    }
}

fn sextet_char(v: u8) -> (c: char)
    requires
        v < 64,
    ensures
        c == base64_char(v as int),
{
    if v < 26 {
        (65 + v) as char
    } else if v < 52 {
        (97 + v - 26) as char
    } else if v < 62 {
        (48 + v - 52) as char
    } else if v == 62 {
        '+'
    } else {
        '/'
    }
}

/// Encodes `bytes` in standard base64, with padding.
pub fn encode_base64(bytes: &[u8]) -> (encoded: String)
    ensures
        encoded@ == spec_base64(bytes@),
{
    let n = bytes.len();
    let mut out = String::new();
    let mut i: usize = 0;
    assert(bytes@.skip(0) =~= bytes@);
    while i < n
        invariant
            n == bytes@.len(),
            i <= n,
            out@ + spec_base64(bytes@.skip(i as int)) == spec_base64(bytes@),
        decreases n - i,
    {
        let ghost rest = bytes@.skip(i as int);
        let b0 = bytes[i];
        if n - i == 1 {
            push_char(&mut out, sextet_char(b0 / 4));
            push_char(&mut out, sextet_char((b0 % 4) * 16));
            push_char(&mut out, '=');
            push_char(&mut out, '=');
            assert(out@ + spec_base64(bytes@.skip(n as int)) =~= spec_base64(bytes@));
            i = n;
        } else if n - i == 2 {
            let b1 = bytes[i + 1];
            push_char(&mut out, sextet_char(b0 / 4));
            push_char(&mut out, sextet_char((b0 % 4) * 16 + b1 / 16));
            push_char(&mut out, sextet_char((b1 % 16) * 4));
            push_char(&mut out, '=');
            assert(out@ + spec_base64(bytes@.skip(n as int)) =~= spec_base64(bytes@));
            i = n;
        } else {
            let b1 = bytes[i + 1];
            let b2 = bytes[i + 2];
            let ghost before = out@;
            push_char(&mut out, sextet_char(b0 / 4));
            push_char(&mut out, sextet_char((b0 % 4) * 16 + b1 / 16));
            push_char(&mut out, sextet_char((b1 % 16) * 4 + b2 / 64));
            push_char(&mut out, sextet_char(b2 % 64));
            assert(rest.skip(3) =~= bytes@.skip(i + 3));
            assert(out@ + spec_base64(bytes@.skip(i + 3)) =~= before + spec_base64(rest));
            i = i + 3;
        }
    }
    assert(bytes@.skip(n as int) =~= Seq::<u8>::empty());
    assert(out@ =~= out@ + spec_base64(bytes@.skip(n as int)));
    out
}

/// The data URL of an icon read from `path` with contents `bytes`: its
/// media type guessed from the path, its bytes in base64.
pub fn favicon_data_url(path: &str, bytes: &[u8]) -> (url: String)
    ensures
        url@ == "data:"@ + mime_essence_for_path(path@) + ";base64,"@ + spec_base64(bytes@),
{
    let mime = guess_mime_essence(path);
    let encoded = encode_base64(bytes);
    let mut url = String::from_str("data:");
    url.append(mime.as_str());
    url.append(";base64,");
    url.append(encoded.as_str());
    url
}

} // verus!
