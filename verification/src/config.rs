//! Choosing the relay endpoints for a run.
//!
//! Relay endpoints can come from the command line or from an optional
//! configuration file; command-line values take precedence. Configuration
//! entries are free-form strings, so only the well-formed ones are kept.

use vstd::prelude::*;

verus! {

/// Whether a string is a well-formed relay URL.
pub uninterp spec fn is_relay_url(s: Seq<char>) -> bool;

/// Relies on `iroh::RelayUrl::from_str` (backed by `url::Url` parsing):
/// whether a string parses as a relay URL is a function of its characters
/// alone.
#[verifier::external_body]
fn relay_url_ok(s: &String) -> (r: bool)
    ensures
        r == is_relay_url(s@),
{
    s.parse::<iroh::RelayUrl>().is_ok()
}

/// The well-formed relay URLs among the configured candidates, in order.
pub open spec fn valid_relays(cfg: Seq<String>) -> Seq<String>
    decreases cfg.len(),
{
    if cfg.len() == 0 {
        Seq::empty()
    } else {
        let rest = valid_relays(cfg.drop_last());
        if is_relay_url(cfg.last()@) {
            rest.push(cfg.last())
        } else {
            rest
        }
    }
}

/// Merge the command line's relay endpoints with the configuration file's:
/// command-line values take precedence exactly as given; otherwise the
/// well-formed entries of the configuration are kept, in order; with
/// neither, the list is empty and the dial falls back to default discovery.
pub fn select_relay_urls(cli: Vec<String>, cfg: Option<Vec<String>>) -> (r: Vec<String>)
    ensures
        cli@.len() > 0 ==> r@ == cli@,
        cli@.len() == 0 ==> (cfg matches Some(v) ==> r@ == valid_relays(v@)),
        cli@.len() == 0 && cfg is None ==> r@ == Seq::<String>::empty(),
{
    if cli.len() > 0 {
        return cli;
    }
    match cfg {
        None => Vec::new(),
        Some(candidates) => {
            let ghost all = candidates@;
            let mut rest = candidates;
            let mut kept: Vec<String> = Vec::new();
            let ghost mut i: int = 0;
            while rest.len() > 0
                invariant
                    0 <= i <= all.len(),
                    i + rest@.len() == all.len(),
                    rest@ == all.skip(i),
                    kept@ == valid_relays(all.take(i)),
                decreases rest@.len(),
            {
                let s = rest.remove(0);
                assert(s == all[i]);
                if relay_url_ok(&s) {
                    kept.push(s);
                }
                proof {
                    assert(rest@ =~= all.skip(i + 1));
                    lemma_valid_relays_take_step(all, i);
                    i = i + 1;
                }
            }
            proof {
                assert(all.take(i) =~= all);
            }
            kept
        },
    }
}

/// Taking one more candidate keeps it exactly when it is well-formed.
proof fn lemma_valid_relays_take_step(all: Seq<String>, i: int)
    requires
        0 <= i < all.len(),
    ensures
        valid_relays(all.take(i + 1)) == if is_relay_url(all[i]@) {
            valid_relays(all.take(i)).push(all[i])
        } else {
            valid_relays(all.take(i))
        },
{
    assert(all.take(i + 1).drop_last() =~= all.take(i));
}

} // verus!
