use vstd::prelude::*;
use crate::error::{Error, ErrorKind};

verus! {

/// The block header version that slates of this wallet are built for.
pub open spec fn slate_header_version_spec() -> u16 {
    5
}

/// Relies on `grin_wallet_libwallet::GRIN_BLOCK_HEADER_VERSION`, the block
/// header version that the wallet library builds slates for: 5.
#[verifier::external_body]
pub(crate) fn slate_header_version() -> (r: u16)
    ensures
        r == slate_header_version_spec(),
{
    grin_wallet_libwallet::GRIN_BLOCK_HEADER_VERSION
}

/// The block header version assumed of a node that does not report one.
pub const DEFAULT_NODE_HEADER_VERSION: u16 = 3;

/// The incoming operations that the compatibility check is asked about.
#[derive(Clone, Copy, Debug, PartialEq, Eq, Structural)]
pub enum MiddlewareFn {
    VerifySlateMessages,
    BuildCoinbase,
    ReceiveTx,
    FinalizeTx,
}

/// The node's block header version, or the default where it gave none.
pub open spec fn node_header_version(node: Option<u16>) -> u16 {
    match node {
        Some(v) => v,
        None => DEFAULT_NODE_HEADER_VERSION,
    }
}

/// Whether an incoming request is refused as incompatible: coinbase building
/// is always allowed; otherwise a slate built for an older header version is
/// refused once the node runs a header version above 4.
pub open spec fn incompatible(name: MiddlewareFn, node: Option<u16>, slate: Option<u16>) -> bool {
    name != MiddlewareFn::BuildCoinbase && match slate {
        Some(s) => node_header_version(node) > 4 && s < slate_header_version_spec(),
        None => false,
    }
}

/// Checks an incoming request against the node's and the slate's block
/// header versions.
pub fn check_middleware(name: MiddlewareFn, node_header: Option<u16>, slate_header: Option<u16>) -> (r:
    Result<(), Error>)
    ensures
        r.is_err() == incompatible(name, node_header, slate_header),
        r.is_err() ==> r.unwrap_err().inner is Incompatible,
{
    match name {
        MiddlewareFn::BuildCoinbase => Ok(()),
        _ => {
            let bhv = match node_header {
                Some(v) => v,
                None => DEFAULT_NODE_HEADER_VERSION,
            };
            match slate_header {
                Some(s) => {
                    if bhv > 4 && s < slate_header_version() {
                        let m = String::from_str(
                            "Incoming Slate is not compatible with this wallet. Please upgrade the node or use a different one.",
                        );
                        Err(Error::new(ErrorKind::Incompatible(m)))
                    } else {
                        Ok(())
                    }
                },
                None => Ok(()),
            }
        },
    }
}

} // verus!
