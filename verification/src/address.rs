//! Scheme defaulting for dial addresses.
//!
//! An address may be given with or without a WebSocket scheme in front. One
//! that names its scheme, `ws` or `wss`, is parsed as it stands; one that
//! names none is parsed behind the insecure scheme.

use vstd::prelude::*;
use vstd::string::*;

verus! {

/// The characters `ws://`.
pub open spec fn ws_prefix() -> Seq<char> {
    seq!['w', 's', ':', '/', '/']
}

/// The characters `wss://`.
pub open spec fn wss_prefix() -> Seq<char> {
    seq!['w', 's', 's', ':', '/', '/']
}

/// Whether an address already names its scheme: whether it begins with
/// `ws://` or with `wss://`.
pub open spec fn has_websocket_scheme(address: Seq<char>) -> bool {
    ws_prefix().is_prefix_of(address) || wss_prefix().is_prefix_of(address)
}

/// The text that is parsed for an address: the address itself where it
/// names its scheme, else the address with `ws://` put in front.
pub open spec fn target_text(address: Seq<char>) -> Seq<char> {
    if has_websocket_scheme(address) {
        address
    } else {
        ws_prefix() + address
    }
}

/// Whether `text` begins with `prefix`, character by character.
///
/// Each character is found by decoding from the start of the text, so the
/// cost grows with the length of `text` times the length of `prefix`.
pub fn starts_with(text: &str, prefix: &str) -> (found: bool)
    ensures
        found == prefix@.is_prefix_of(text@),
{
    let wanted: usize = prefix.unicode_len();
    if text.unicode_len() < wanted {
        return false;
    }
    let mut i: usize = 0;
    while i < wanted
        invariant
            i <= wanted,
            wanted == prefix@.len(),
            wanted <= text@.len(),
            forall|k: int| 0 <= k < i ==> text@[k] == prefix@[k],
        decreases wanted - i,
    {
        if text.get_char(i) != prefix.get_char(i) {
            assert(text@[i as int] != prefix@[i as int]);
            return false;
        }
        i = i + 1;
    }
    assert(text@.subrange(0, prefix@.len() as int) =~= prefix@);
    true
}

/// Whether an address already names its scheme, insecure or secure.
pub fn has_scheme(address: &str) -> (found: bool)
    ensures
        found == has_websocket_scheme(address@),
{
    proof {
        reveal_strlit("ws://");
        reveal_strlit("wss://");
        assert("ws://"@ =~= ws_prefix());
        assert("wss://"@ =~= wss_prefix());
    }
    starts_with(address, "ws://") || starts_with(address, "wss://")
}

/// The text to parse for an address given with or without the scheme.
pub fn with_default_scheme(address: &str) -> (text: String)
    ensures
        text@ == target_text(address@),
{
    if has_scheme(address) {
        String::from_str(address)
    } else {
        with_scheme(address)
    }
}

/// The text to parse for a `host:port` pair: `ws://` is put in front
/// whatever the pair begins with.
pub fn with_scheme(authority: &str) -> (text: String)
    ensures
        text@ == ws_prefix() + authority@,
{
    proof {
        reveal_strlit("ws://");
        assert("ws://"@ =~= ws_prefix());
    }
    String::from_str("ws://").concat(authority)
}

/// An address without a scheme is parsed behind `ws://` and is itself
/// unchanged: the text begins with the insecure scheme, and what follows
/// the scheme is the address as it was given, host and port included.
pub proof fn lemma_scheme_is_defaulted(address: Seq<char>)
    requires
        !has_websocket_scheme(address),
    ensures
        ws_prefix().is_prefix_of(target_text(address)),
        target_text(address).len() == ws_prefix().len() + address.len(),
        target_text(address).skip(ws_prefix().len() as int) == address,
{
    let text = target_text(address);
    assert(text.subrange(0, ws_prefix().len() as int) =~= ws_prefix());
    assert(text.skip(ws_prefix().len() as int) =~= address);
}

/// An address that names its scheme is parsed as it stands, so a secure
/// scheme stays secure.
pub proof fn lemma_scheme_is_kept(address: Seq<char>)
    requires
        has_websocket_scheme(address),
    ensures
        target_text(address) == address,
        wss_prefix().is_prefix_of(address) ==> wss_prefix().is_prefix_of(target_text(address)),
{
}

/// The text that is parsed always names its scheme, and defaulting the
/// scheme twice is the same as defaulting it once.
pub proof fn lemma_defaulting_is_idempotent(address: Seq<char>)
    ensures
        has_websocket_scheme(target_text(address)),
        target_text(target_text(address)) == target_text(address),
{
    if !has_websocket_scheme(address) {
        lemma_scheme_is_defaulted(address);
    }
}

} // verus!
