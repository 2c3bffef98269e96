//! Application-protocol tags negotiated on each connection.
//!
//! The server recognizes two tags: the native tag and a legacy-compatible tag
//! used by an existing ecosystem tool with a structurally identical
//! forwarding scheme.

use vstd::prelude::*;

verus! {

/// The bytes of the native application-protocol tag, `edsh/1`.
pub open spec fn spec_native_alpn() -> Seq<u8> {
    seq![101u8, 100u8, 115u8, 104u8, 47u8, 49u8]
}

/// The bytes of the legacy-compatible application-protocol tag, `/iroh/ssh`.
pub open spec fn spec_legacy_alpn() -> Seq<u8> {
    seq![47u8, 105u8, 114u8, 111u8, 104u8, 47u8, 115u8, 115u8, 104u8]
}

/// A handshake message of the application protocol.
pub enum Message {
    /// Request to open the tunnel.
    Connect,
}

/// The native application-protocol tag, `edsh/1`.
pub fn native_alpn() -> (r: Vec<u8>)
    ensures
        r@ == spec_native_alpn(),
{
    let mut v: Vec<u8> = Vec::new();
    v.push(101);
    v.push(100);
    v.push(115);
    v.push(104);
    v.push(47);
    v.push(49);
    proof {
        assert(v@ =~= spec_native_alpn());
    }
    v
}

/// The legacy-compatible application-protocol tag, `/iroh/ssh`.
pub fn legacy_alpn() -> (r: Vec<u8>)
    ensures
        r@ == spec_legacy_alpn(),
{
    let mut v: Vec<u8> = Vec::new();
    v.push(47);
    v.push(105);
    v.push(114);
    v.push(111);
    v.push(104);
    v.push(47);
    v.push(115);
    v.push(115);
    v.push(104);
    proof {
        assert(v@ =~= spec_legacy_alpn());
    }
    v
}

/// The tags a listening endpoint accepts: the native tag and the
/// legacy-compatible one, in that order.
pub fn server_alpns() -> (r: Vec<Vec<u8>>)
    ensures
        r@.len() == 2,
        r@[0]@ == spec_native_alpn(),
        r@[1]@ == spec_legacy_alpn(),
{
    let mut v: Vec<Vec<u8>> = Vec::new();
    v.push(native_alpn());
    v.push(legacy_alpn());
    v
}

/// The two accepted tags differ, so negotiation distinguishes them.
pub proof fn lemma_alpns_distinct()
    ensures
        spec_native_alpn() != spec_legacy_alpn(),
{
    assert(spec_native_alpn().len() != spec_legacy_alpn().len());
}

} // verus!
