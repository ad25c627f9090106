//! The consent URL that an operator opens once to authorize the application.
use vstd::prelude::*;

use vstd::utf8::encode_utf8;

use crate::config::{config_from_settings, opt_view, Settings, StravaConfig};
use crate::decimal::{append_decimal, decimal_digits, lemma_parse_decimal};

verus! {

/// Bytes that stand for themselves in an encoded URI component: ASCII letters,
/// digits and `-`, `.`, `_`, `~`.
pub open spec fn is_unreserved(b: u8) -> bool {
    ||| 48 <= b <= 57
    ||| 65 <= b <= 90
    ||| 97 <= b <= 122
    ||| b == 45
    ||| b == 46
    ||| b == 95
    ||| b == 126
}

/// The upper-case hexadecimal digit for a value below sixteen.
pub open spec fn hex_digit(n: u8) -> char
    recommends
        n < 16,
{
    if n < 10 {
        ((n + 48) as u8) as char
    } else {
        ((n + 55) as u8) as char
    }
}

pub open spec fn encode_byte(b: u8) -> Seq<char> {
    if is_unreserved(b) {
        seq![b as char]
    } else {
        seq!['%', hex_digit(b / 16), hex_digit(b % 16)]
    }
}

/// Percent-encoding of a byte string: every byte but the unreserved ones
/// becomes `%` and two upper-case hexadecimal digits.
pub open spec fn percent_encode(bytes: Seq<u8>) -> Seq<char>
    decreases bytes.len(),
{
    if bytes.len() == 0 {
        Seq::empty()
    } else {
        percent_encode(bytes.drop_last()) + encode_byte(bytes.last())
    }
}

/// The text `s` encoded as a complete URI component, over its UTF-8 bytes.
pub open spec fn uri_component(s: Seq<char>) -> Seq<char> {
    percent_encode(encode_utf8(s))
}

/// Characters that may appear in an encoded URI component: ASCII letters and
/// digits, `-`, `.`, `_`, `~`, and the `%` that starts an escape.
pub open spec fn is_component_char(c: char) -> bool {
    ||| '0' <= c <= '9'
    ||| 'A' <= c <= 'Z'
    ||| 'a' <= c <= 'z'
    ||| c == '-'
    ||| c == '.'
    ||| c == '_'
    ||| c == '~'
    ||| c == '%'
}

/// An encoded component holds no reserved character: every `:`, `/`, `?`,
/// `&`, `=` and other byte outside the unreserved set has been escaped.
pub proof fn lemma_component_escapes_reserved(bytes: Seq<u8>)
    ensures
        forall|i: int|
            0 <= i < percent_encode(bytes).len() ==> is_component_char(
                #[trigger] percent_encode(bytes)[i],
            ),
    decreases bytes.len(),
{
    if bytes.len() > 0 {
        let front = bytes.drop_last();
        let b = bytes.last();
        lemma_component_escapes_reserved(front);
        let e = encode_byte(b);
        assert forall|i: int| 0 <= i < e.len() implies is_component_char(#[trigger] e[i]) by {
            if !is_unreserved(b) {
                assert(b / 16 < 16);
                assert(b % 16 < 16);
            }
        }
        let p = percent_encode(front);
        assert forall|i: int| 0 <= i < percent_encode(bytes).len() implies is_component_char(
            #[trigger] percent_encode(bytes)[i],
        ) by {
            if i < p.len() {
                assert(percent_encode(bytes)[i] == p[i]);
            } else {
                assert(percent_encode(bytes)[i] == e[i - p.len()]);
            }
        }
    }
}

/// Relies on urlencoding::encode: each UTF-8 byte of `s` outside ASCII letters,
/// digits and `-`, `.`, `_`, `~` is written as `%` and two upper-case hex digits.
#[verifier::external_body]
fn encode_component(s: &str) -> (r: String)
    ensures
        r@ == uri_component(s@),
{
    urlencoding::encode(s).into_owned()
}

/// The consent URL for the API rooted at `base`, the application `client_id`
/// and the redirect address `redirect`.
pub open spec fn auth_url(base: Seq<char>, client_id: u32, redirect: Seq<char>) -> Seq<char> {
    base + "/oauth/authorize?client_id="@ + decimal_digits(client_id as nat) + "&redirect_uri="@
        + uri_component(redirect) + "&response_type=code&scope=read,activity:read,activity:write"@
}

/// The consent URL for `config`: client identifier in decimal, redirect
/// address encoded as a complete URI component, and the fixed scope.
pub fn build_auth_url(config: &StravaConfig) -> (r: String)
    ensures
        r@ == auth_url(config.strava_url@, config.client_id, config.redirect_uri@),
{
    let encoded = encode_component(config.redirect_uri.as_str());
    let mut url = config.strava_url.clone();
    url.append("/oauth/authorize?client_id=");
    append_decimal(&mut url, config.client_id);
    url.append("&redirect_uri=");
    url.append(encoded.as_str());
    url.append("&response_type=code&scope=read,activity:read,activity:write");
    url
}

/// Building the consent URL again, from a configuration that holds the same
/// identifier, redirect address and API root, gives the same text.
pub proof fn lemma_auth_url_deterministic(a: StravaConfig, b: StravaConfig)
    requires
        a.client_id == b.client_id,
        a.redirect_uri@ == b.redirect_uri@,
        a.strava_url@ == b.strava_url@,
    ensures
        auth_url(a.strava_url@, a.client_id, a.redirect_uri@) == auth_url(
            b.strava_url@,
            b.client_id,
            b.redirect_uri@,
        ),
{
}

/// A configuration read from settings, whose own field values are written back
/// as settings and read again, comes back unchanged, and the consent URLs built
/// from the two are the same text.
pub proof fn lemma_settings_round_trip(s: Settings, c: StravaConfig, again: Settings, c2: StravaConfig)
    requires
        config_from_settings(s, c),
        again.client_id is Some,
        again.client_id->0@ == decimal_digits(c.client_id as nat),
        opt_view(again.client_secret) == Some(c.client_secret@),
        opt_view(again.refresh_token) == opt_view(c.refresh_token),
        opt_view(again.redirect_uri) == Some(c.redirect_uri@),
        config_from_settings(again, c2),
    ensures
        c2.same_as(&c),
        auth_url(c2.strava_url@, c2.client_id, c2.redirect_uri@) == auth_url(
            c.strava_url@,
            c.client_id,
            c.redirect_uri@,
        ),
{
    lemma_parse_decimal(c.client_id);
}

} // verus!
