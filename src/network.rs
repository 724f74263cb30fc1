//! Transaction networks, their markers, and the test of whether an event is
//! meant for the network this relay serves.
use vstd::prelude::*;
use crate::event::{Event, find_tag, first_tag_values, lemma_found_values};
use crate::hex::{marker_bytes, parse_marker};

verus! {

/// A bitcoin network that transactions may be meant for.
#[derive(Clone, Copy, Debug, PartialEq, Eq, Structural)]
pub enum Network {
    Bitcoin,
    Testnet,
    Signet,
    Regtest,
}

impl Network {
    /// The four marker bytes that identify the network.
    pub open spec fn marker_spec(self) -> Seq<u8> {
        match self {
            Network::Bitcoin => seq![0xF9u8, 0xBEu8, 0xB4u8, 0xD9u8],
            Network::Testnet => seq![0x0Bu8, 0x11u8, 0x09u8, 0x07u8],
            Network::Signet => seq![0x0Au8, 0x03u8, 0xCFu8, 0x40u8],
            Network::Regtest => seq![0xFAu8, 0xBFu8, 0xB5u8, 0xDAu8],
        }
    }
}

/// Relies on `bitcoin::Network::magic` (with `Magic::to_bytes`), whose
/// source maps each network to the constant bytes above.
#[verifier::external_body]
pub(crate) fn network_magic(n: Network) -> (r: [u8; 4])
    ensures
        r@ == n.marker_spec(),
{
    let net = match n {
        Network::Bitcoin => bitcoin::Network::Bitcoin,
        Network::Testnet => bitcoin::Network::Testnet,
        Network::Signet => bitcoin::Network::Signet,
        Network::Regtest => bitcoin::Network::Regtest,
    };
    net.magic().to_bytes()
}

/// Name of the tag that carries the network marker.
pub open spec fn marker_key() -> Seq<char> {
    seq!['m', 'a', 'g', 'i', 'c']
}

/// The name of the marker tag, as a string.
pub fn marker_key_string() -> (r: String)
    ensures
        r@ == marker_key(),
{
    let s = String::from_str("magic");
    proof {
        reveal_strlit("magic");
    }
    assert(s@ =~= marker_key());
    s
}

/// The marker an event names: the first value of its first marker tag,
/// read as hex. Absent or malformed markers give `None`.
pub open spec fn event_marker(tags: Seq<Vec<String>>) -> Option<Seq<u8>> {
    match first_tag_values(tags, marker_key()) {
        Some(v) => if v.len() > 0 {
            marker_bytes(v[0]@)
        } else {
            None
        },
        None => None,
    }
}

/// Whether the event names exactly the `target` marker.
pub fn matches_network(event: &Event, target: &[u8; 4]) -> (r: bool)
    ensures
        r == (event_marker(event.tags@) == Some(target@)),
{
    let key = marker_key_string();
    let found = find_tag(&event.tags, &key);
    proof {
        lemma_found_values(event.tags@, key@, found);
    }
    match found {
        None => false,
        Some(i) => {
            let tag = &event.tags[i];
            if tag.len() < 2 {
                return false;
            }
            match parse_marker(tag[1].as_str()) {
                None => false,
                Some(m) => {
                    let same = m[0] == target[0] && m[1] == target[1] && m[2] == target[2]
                        && m[3] == target[3];
                    proof {
                        let v = tag@.subrange(1, tag@.len() as int);
                        assert(v[0] == tag@[1]);
                        if same {
                            assert(m@ =~= target@);
                        } else {
                            assert(m@ != target@) by {
                                if m@ == target@ {
                                    assert(m@[0] == target@[0]);
                                    assert(m@[1] == target@[1]);
                                    assert(m@[2] == target@[2]);
                                    assert(m@[3] == target@[3]);
                                }
                            }
                        }
                    }
                    same
                },
            }
        },
    }
}

} // verus!
