//! The address that the viewer page is opened at.
use vstd::prelude::*;
use vstd::string::StringExecFns;

verus! {

/// The decimal digits of `n`, as ASCII bytes, most significant first.
pub open spec fn decimal(n: nat) -> Seq<u8>
    decreases n,
{
    if n < 10 {
        seq![(48 + n) as u8]
    } else {
        decimal(n / 10).push((48 + n % 10) as u8)
    }
}

/// ASCII bytes read as characters.
pub open spec fn ascii_chars(b: Seq<u8>) -> Seq<char> {
    b.map_values(|c: u8| c as char)
}

/// What base64's URL-safe engine (with padding) makes of `b`.
pub uninterp spec fn base64_url_of(b: Seq<u8>) -> Seq<char>;

/// Relies on `base64::prelude::BASE64_URL_SAFE.encode`: the URL-safe alphabet
/// with `=` padding; the result depends on the input bytes alone.
#[verifier::external_body]
fn encode_base64_url(b: &[u8]) -> (r: String)
    ensures
        r@ == base64_url_of(b@),
{
    base64::Engine::encode(&base64::prelude::BASE64_URL_SAFE, b)
}

fn digit(d: u16) -> (r: &'static str)
    requires
        d < 10,
    ensures
        r@ == seq![(48 + d) as char],
{
    proof {
        reveal_strlit("0");
        reveal_strlit("1");
        reveal_strlit("2");
        reveal_strlit("3");
        reveal_strlit("4");
        reveal_strlit("5");
        reveal_strlit("6");
        reveal_strlit("7");
        reveal_strlit("8");
        reveal_strlit("9");
    }
    if d == 0 {
        "0"
    } else if d == 1 {
        "1"
    } else if d == 2 {
        "2"
    } else if d == 3 {
        "3"
    } else if d == 4 {
        "4"
    } else if d == 5 {
        "5"
    } else if d == 6 {
        "6"
    } else if d == 7 {
        "7"
    } else if d == 8 {
        "8"
    } else {
        "9"
    }
}

/// Appends the decimal digits of `n` to both `bytes` and `text`.
fn push_decimal(bytes: &mut Vec<u8>, text: &mut String, n: u16)
    ensures
        final(bytes)@ == old(bytes)@ + decimal(n as nat),
        final(text)@ == old(text)@ + ascii_chars(decimal(n as nat)),
    decreases n,
{
    if n >= 10 {
        push_decimal(bytes, text, n / 10);
    }
    let d = n % 10;
    bytes.push(48 + d as u8);
    text.append(digit(d));
    proof {
        let ds = decimal(n as nat);
        if n >= 10 {
            assert(ds == decimal((n / 10) as nat).push((48 + n % 10) as u8));
        } else {
            assert(ds == seq![(48 + n) as u8]);
        }
        assert(ascii_chars(ds) =~= ascii_chars(ds.drop_last()).push((48 + d) as char));
        assert(ds.drop_last() =~= if n >= 10 {
            decimal((n / 10) as nat)
        } else {
            seq![]
        });
        assert(bytes@ =~= old(bytes)@ + ds);
        assert(text@ =~= old(text)@ + ascii_chars(ds));
    }
}

/// The page that shows the monitor: served on `open_port`, and told, in
/// base64, the WebSocket port to connect to.
pub fn viewer_url(open_port: u16, ws_port: u16) -> (r: String)
    ensures
        r@ == "http://localhost:"@ + ascii_chars(decimal(open_port as nat)) + "/?addr="@
            + base64_url_of(decimal(ws_port as nat)),
{
    let mut url = String::from_str("http://localhost:");
    let mut open_digits: Vec<u8> = Vec::new();
    push_decimal(&mut open_digits, &mut url, open_port);
    url.append("/?addr=");
    let mut port: Vec<u8> = Vec::new();
    let mut port_text = String::new();
    push_decimal(&mut port, &mut port_text, ws_port);
    assert(port@ =~= decimal(ws_port as nat));
    let encoded = encode_base64_url(port.as_slice());
    url.append(encoded.as_str());
    url
}

} // verus!
