//! Classifies a fresh connection from the first bytes it sent.
use vstd::prelude::*;
use vstd::utf8::valid_utf8;

verus! {

/// How many bytes a connection is peeked for before it is classified.
pub const SNIFF_WINDOW: usize = 1024;

/// `GET `
pub const VERB_GET: [u8; 4] = [71, 69, 84, 32];

/// `POST `
pub const VERB_POST: [u8; 5] = [80, 79, 83, 84, 32];

/// `PUT `
pub const VERB_PUT: [u8; 4] = [80, 85, 84, 32];

/// `DELETE `
pub const VERB_DELETE: [u8; 7] = [68, 69, 76, 69, 84, 69, 32];

/// `HEAD `
pub const VERB_HEAD: [u8; 5] = [72, 69, 65, 68, 32];

/// `OPTIONS `
pub const VERB_OPTIONS: [u8; 8] = [79, 80, 84, 73, 79, 78, 83, 32];

/// A header line `upgrade: websocket`, in lower case, with the line breaks
/// around it.
pub const UPGRADE_LINE: [u8; 22] = [
    13, 10, 117, 112, 103, 114, 97, 100, 101, 58, 32,
    119, 101, 98, 115, 111, 99, 107, 101, 116, 13, 10,
];

/// What a connection speaks.
#[derive(PartialEq, Eq, Structural, Debug, Clone, Copy)]
pub enum Protocol {
    Http,
    WebSocket,
    RawTcp,
}

/// ASCII lower case of one byte.
pub open spec fn lower(c: u8) -> u8 {
    if 65 <= c <= 90 {
        (c + 32) as u8
    } else {
        c
    }
}

pub open spec fn starts_with(b: Seq<u8>, p: Seq<u8>) -> bool {
    p.len() <= b.len() && b.subrange(0, p.len() as int) == p
}

/// `b` holds `p` at `i`, ignoring ASCII case (`p` is lower case).
pub open spec fn matches_ci_at(b: Seq<u8>, i: int, p: Seq<u8>) -> bool {
    &&& 0 <= i
    &&& i + p.len() <= b.len()
    &&& forall|j: int| 0 <= j < p.len() ==> lower(#[trigger] b[i + j]) == p[j]
}

pub open spec fn contains_ci(b: Seq<u8>, p: Seq<u8>) -> bool {
    exists|i: int| matches_ci_at(b, i, p)
}

/// `b` is valid UTF-8, or could become so with more bytes after it.
pub open spec fn utf8_prefix(b: Seq<u8>) -> bool {
    exists|more: Seq<u8>| valid_utf8(b + more)
}

pub open spec fn starts_with_verb(b: Seq<u8>) -> bool {
    ||| starts_with(b, VERB_GET@)
    ||| starts_with(b, VERB_POST@)
    ||| starts_with(b, VERB_PUT@)
    ||| starts_with(b, VERB_DELETE@)
    ||| starts_with(b, VERB_HEAD@)
    ||| starts_with(b, VERB_OPTIONS@)
}

/// The class of a connection whose first bytes are `b`.
pub open spec fn classify_spec(b: Seq<u8>) -> Protocol {
    if utf8_prefix(b) && starts_with_verb(b) && contains_ci(b, UPGRADE_LINE@) {
        Protocol::WebSocket
    } else if starts_with_verb(b) {
        Protocol::Http
    } else {
        Protocol::RawTcp
    }
}

/// Relies on `std::str::from_utf8`: it succeeds on valid UTF-8, and where it
/// fails, `Utf8Error::error_len` is `None` exactly when the input ended inside
/// a character that more bytes could complete.
#[verifier::external_body]
fn is_utf8_prefix(b: &[u8]) -> (r: bool)
    ensures
        r == utf8_prefix(b@),
{
    match std::str::from_utf8(b) {
        Ok(_) => true,
        Err(e) => e.error_len().is_none(),
    }
}

fn to_lower(c: u8) -> (r: u8)
    ensures
        r == lower(c),
{
    if 65 <= c && c <= 90 {
        c + 32
    } else {
        c
    }
}

fn has_prefix(b: &[u8], p: &[u8]) -> (r: bool)
    ensures
        r == starts_with(b@, p@),
{
    if p.len() > b.len() {
        return false;
    }
    let mut j: usize = 0;
    while j < p.len()
        invariant
            j <= p@.len() <= b@.len(),
            forall|k: int| 0 <= k < j ==> b@[k] == p@[k],
        decreases p@.len() - j,
    {
        if b[j] != p[j] {
            assert(b@.subrange(0, p@.len() as int)[j as int] != p@[j as int]);
            return false;
        }
        j = j + 1;
    }
    assert(b@.subrange(0, p@.len() as int) =~= p@);
    true
}

fn matches_ci(b: &[u8], at: usize, p: &[u8]) -> (r: bool)
    requires
        at + p@.len() <= b@.len(),
    ensures
        r == matches_ci_at(b@, at as int, p@),
{
    let len: usize = b.len();
    let mut j: usize = 0;
    while j < p.len()
        invariant
            j <= p@.len(),
            at + p@.len() <= b@.len(),
            len == b@.len(),
            forall|k: int| 0 <= k < j ==> lower(#[trigger] b@[at + k]) == p@[k],
        decreases p@.len() - j,
    {
        if to_lower(b[at + j]) != p[j] {
            return false;
        }
        j = j + 1;
    }
    true
}

fn find_ci(b: &[u8], p: &[u8]) -> (r: bool)
    ensures
        r == contains_ci(b@, p@),
{
    let len = b.len();
    if p.len() > len {
        return false;
    }
    let mut i: usize = 0;
    while i <= len - p.len()
        invariant
            p@.len() <= len == b@.len(),
            forall|k: int| 0 <= k < i ==> !matches_ci_at(b@, k, p@),
        decreases len - i,
    {
        if matches_ci(b, i, p) {
            return true;
        }
        i = i + 1;
    }
    false
}

/// Classifies a connection by the bytes peeked from it: a WebSocket upgrade
/// (text that starts with an HTTP verb and has an `Upgrade: websocket` header
/// line), another request that starts with an HTTP verb, or raw TCP.
pub fn classify(bytes: &[u8]) -> (r: Protocol)
    ensures
        r == classify_spec(bytes@),
{
    let text = is_utf8_prefix(bytes);
    let verb = has_prefix(bytes, VERB_GET.as_slice()) || has_prefix(bytes, VERB_POST.as_slice())
        || has_prefix(bytes, VERB_PUT.as_slice()) || has_prefix(bytes, VERB_DELETE.as_slice())
        || has_prefix(bytes, VERB_HEAD.as_slice()) || has_prefix(bytes, VERB_OPTIONS.as_slice());
    if !verb {
        Protocol::RawTcp
    } else if text && find_ci(bytes, UPGRADE_LINE.as_slice()) {
        Protocol::WebSocket
    } else {
        Protocol::Http
    }
}

} // verus!
