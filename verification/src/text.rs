//! Text helpers for hashes and network names.

use vstd::prelude::*;

verus! {

/// Whether the text already begins with the hexadecimal marker `0x`.
pub open spec fn starts_with_0x(s: Seq<char>) -> bool {
    s.len() >= 2 && s[0] == '0' && s[1] == 'x'
}

/// The shortened form of a hexadecimal string: the text itself when it is
/// no longer than the kept prefix and suffix together; otherwise the first
/// `keep_prefix` and last `keep_suffix` characters around an ellipsis, with
/// a `0x` marker added in front unless the text already carries one.
pub open spec fn spec_shorten_hex(s: Seq<char>, keep_prefix: int, keep_suffix: int) -> Seq<char> {
    if s.len() <= keep_prefix + keep_suffix {
        s
    } else {
        (if starts_with_0x(s) {
            Seq::<char>::empty()
        } else {
            "0x"@
        }) + s.take(keep_prefix) + "..."@ + s.skip(s.len() - keep_suffix)
    }
}

/// Shortens a hexadecimal string for display, keeping its first
/// `keep_prefix` and last `keep_suffix` characters.
pub fn shorten_hex(hex: &str, keep_prefix: usize, keep_suffix: usize) -> (r: String)
    requires
        hex.is_ascii(),
        keep_prefix + keep_suffix <= usize::MAX,
    ensures
        r@ == spec_shorten_hex(hex@, keep_prefix as int, keep_suffix as int),
{
    let n = hex.unicode_len();
    if n <= keep_prefix + keep_suffix {
        return hex.to_owned();
    }
    let has_marker = n >= 2 && hex.get_char(0) == '0' && hex.get_char(1) == 'x';
    let mut out = if has_marker {
        String::new()
    } else {
        String::from_str("0x")
    };
    out.append(hex.substring_ascii(0, keep_prefix));
    out.append("...");
    out.append(hex.substring_ascii(n - keep_suffix, n));
    proof {
        assert(out@ =~= spec_shorten_hex(hex@, keep_prefix as int, keep_suffix as int));
    }
    out
}

/// The display name of the network a node reports: the two well-known chain
/// identifiers get their network names, any other identifier is shown in
/// brackets as it came.
pub fn network_display_name(chain: &str) -> (r: String)
    ensures
        chain@ == "ckb"@ ==> r@ == "[Meepo Mainnet]"@,
        chain@ == "ckb_testnet"@ ==> r@ == "[Mirana Testnet]"@,
        chain@ != "ckb"@ && chain@ != "ckb_testnet"@ ==> r@ == "["@ + chain@ + "]"@,
{
    proof {
        reveal_strlit("ckb");
        reveal_strlit("ckb_testnet");
        assert("ckb"@.len() == 3);
        assert("ckb_testnet"@.len() == 11);
    }
    let owned = chain.to_owned();
    if owned == String::from_str("ckb") {
        String::from_str("[Meepo Mainnet]")
    } else if owned == String::from_str("ckb_testnet") {
        String::from_str("[Mirana Testnet]")
    } else {
        let mut out = String::from_str("[");
        out.append(chain);
        out.append("]");
        out
    }
}

} // verus!
