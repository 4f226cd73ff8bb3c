//! Which keypaths an Ethereum request may name.

use vstd::prelude::*;
use vstd::string::StringExecFns;

use crate::bip32::{keypath_text, to_string, HARDENED};
use crate::ethereum::params::Params;
use crate::workflow::{ConfirmParams, ConfirmParamsView};

verus! {

/// The highest address index that is accepted.
pub const ACCOUNT_MAX: u32 = 99;

/// The keypaths of the two account keys that are accepted:
/// `m/44'/60'/0'/0` and `m/44'/1'/0'/0`.
pub open spec fn valid_keypath_xpub(keypath: Seq<u32>) -> bool {
    &&& keypath.len() == 4
    &&& keypath[0] == 44 + HARDENED
    &&& (keypath[1] == 60 + HARDENED || keypath[1] == 1 + HARDENED)
    &&& keypath[2] == HARDENED
    &&& keypath[3] == 0
}

/// The keypaths of the addresses that are accepted: one of the two account
/// keys, then an index of at most `ACCOUNT_MAX`.
pub open spec fn valid_keypath_address(keypath: Seq<u32>) -> bool {
    &&& keypath.len() == 5
    &&& valid_keypath_xpub(keypath.subrange(0, 4))
    &&& keypath[4] <= ACCOUNT_MAX
}

/// A keypath is unusual for a network if its second element is not the
/// network's own.
pub open spec fn unusual_keypath(params: Params, keypath: Seq<u32>) -> bool {
    keypath.len() < 2 || keypath[1] != params.bip44_coin
}

/// The warning shown for an unusual keypath, under the given title.
pub open spec fn unusual_keypath_warning(title: Seq<char>, keypath: Seq<u32>) -> ConfirmParamsView {
    ConfirmParamsView {
        title,
        body: "Unusual keypath warning: "@ + keypath_text(keypath)
            + ". Proceed only if you know what you are doing."@,
        scrollable: true,
        accept_is_nextarrow: false,
        display_size: 0,
    }
}

/// Whether `keypath` is that of an account key that is accepted.
pub fn is_valid_keypath_xpub(keypath: &[u32]) -> (valid: bool)
    ensures
        valid == valid_keypath_xpub(keypath@),
{
    keypath.len() == 4 && keypath[0] == 44 + HARDENED && (keypath[1] == 60 + HARDENED || keypath[1]
        == 1 + HARDENED) && keypath[2] == HARDENED && keypath[3] == 0
}

/// Whether `keypath` is that of an address that is accepted.
pub fn is_valid_keypath_address(keypath: &[u32]) -> (valid: bool)
    ensures
        valid == valid_keypath_address(keypath@),
{
    if keypath.len() != 5 {
        return false;
    }
    if !is_valid_keypath_xpub(vstd::slice::slice_subrange(keypath, 0, 4)) {
        return false;
    }
    keypath[4] <= ACCOUNT_MAX
}

/// The warning to show before anything else if `keypath` is unusual for the
/// network, and `None` if it is not.
pub fn warn_unusual_keypath(params: &Params, title: &str, keypath: &[u32]) -> (warning: Option<
    ConfirmParams,
>)
    ensures
        match warning {
            Some(w) => unusual_keypath(*params, keypath@) && w@ == unusual_keypath_warning(
                title@,
                keypath@,
            ),
            None => !unusual_keypath(*params, keypath@),
        },
{
    if keypath.len() < 2 || keypath[1] != params.bip44_coin {
        let mut body = String::from_str("Unusual keypath warning: ");
        let path = to_string(keypath);
        body.append(path.as_str());
        body.append(". Proceed only if you know what you are doing.");
        Some(
            ConfirmParams {
                title: String::from_str(title),
                body,
                scrollable: true,
                accept_is_nextarrow: false,
                display_size: 0,
            },
        )
    } else {
        None
    }
}

} // verus!
