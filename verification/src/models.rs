use vstd::prelude::*;
use vstd::string::StrSliceExecFns;

verus! {

/// The NEAR network an RPC URL points at.
#[derive(Clone, Copy, Debug, PartialEq, Eq, Structural)]
pub enum Network {
    Mainnet,
    Testnet,
}

/// The word "testnet" occurs in `s` starting at position `i`.
pub open spec fn testnet_marker_at(s: Seq<char>, i: int) -> bool {
    &&& 0 <= i
    &&& i + 7 <= s.len()
    &&& s[i] == 't'
    &&& s[i + 1] == 'e'
    &&& s[i + 2] == 's'
    &&& s[i + 3] == 't'
    &&& s[i + 4] == 'n'
    &&& s[i + 5] == 'e'
    &&& s[i + 6] == 't'
}

/// The URL names the testnet: "testnet" occurs somewhere in it.
pub open spec fn url_names_testnet(s: Seq<char>) -> bool {
    exists|i: int| testnet_marker_at(s, i)
}

fn testnet_marker_matches_at(url: &str, i: usize) -> (r: bool)
    requires
        i + 7 <= url@.len(),
        i + 7 <= usize::MAX,
    ensures
        r == testnet_marker_at(url@, i as int),
{
    url.get_char(i) == 't' && url.get_char(i + 1) == 'e' && url.get_char(i + 2) == 's'
        && url.get_char(i + 3) == 't' && url.get_char(i + 4) == 'n' && url.get_char(i + 5) == 'e'
        && url.get_char(i + 6) == 't'
}

impl Network {
    /// The network inferred from an RPC URL: any URL that mentions
    /// "testnet" is the testnet, every other URL is the mainnet.
    pub fn from_rpc_url(url: &str) -> (r: Network)
        ensures
            r is Testnet <==> url_names_testnet(url@),
            r is Mainnet <==> !url_names_testnet(url@),
    {
        let n: usize = url.unicode_len();
        if n < 7 {
            proof {
                assert(forall|i: int| !testnet_marker_at(url@, i));
            }
            return Network::Mainnet;
        }
        let mut i: usize = 0;
        while i <= n - 7
            invariant
                n == url@.len(),
                7 <= n,
                i <= n - 6,
                forall|j: int| 0 <= j < i ==> !testnet_marker_at(url@, j),
            decreases n - i,
        {
            if testnet_marker_matches_at(url, i) {
                return Network::Testnet;
            }
            i = i + 1;
        }
        proof {
            assert forall|j: int| !testnet_marker_at(url@, j) by {
                if 0 <= j < i {
                } else if j >= i {
                    assert(j + 7 > n);
                }
            }
        }
        Network::Mainnet
    }
}

} // verus!
