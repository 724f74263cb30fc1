//! One pass of the relay over an event: kind and network checks, then
//! extraction and the choice of node call.
use vstd::prelude::*;
use crate::dispatch::{Submission, plan_submission, submitted};
use crate::event::{Event, first_tag_values};
use crate::extract::{
    entry_payload, event_payloads, extract_transactions, extracted_payloads, payloads_of,
};
use crate::hex::marker_bytes;
use crate::network::{Network, event_marker, marker_key, matches_network, network_magic};

verus! {

/// The event kind that carries transactions.
pub const TRANSACTION_EVENT_KIND: u64 = 28333;

/// What the relay is set up with for its whole run.
pub struct BridgeConfig {
    /// Only events of this kind are looked at.
    pub listen_kind: u64,
    /// Only events naming this network marker are relayed.
    pub target: [u8; 4],
}

impl BridgeConfig {
    /// The configuration that relays transactions meant for `network`.
    pub fn new(network: Network) -> (r: BridgeConfig)
        ensures
            r.listen_kind == TRANSACTION_EVENT_KIND,
            r.target@ == network.marker_spec(),
    {
        BridgeConfig { listen_kind: TRANSACTION_EVENT_KIND, target: network_magic(network) }
    }
}

/// The event is of the listened kind and names exactly the target marker.
pub open spec fn accepts(config: BridgeConfig, event: Event) -> bool {
    &&& event.kind == config.listen_kind
    &&& event_marker(event.tags@) == Some(config.target@)
}

/// The node call fits the number of transactions: none for zero, the
/// single call for one, a package for more.
pub open spec fn routed_by_count(s: Submission) -> bool {
    &&& (submitted(s).len() == 0) == (s is Skip)
    &&& (submitted(s).len() == 1) == (s is Single)
    &&& (submitted(s).len() >= 2) == (s is Package)
}

/// Decides what one event asks of the node. Events of another kind, and
/// events whose marker is absent, malformed or another network's, ask
/// nothing; the others submit their well-formed transactions in tag order.
pub fn handle_event(config: &BridgeConfig, event: &Event) -> (r: Submission)
    ensures
        event.kind != config.listen_kind ==> r is Skip,
        first_tag_values(event.tags@, marker_key()) is None ==> r is Skip,
        (first_tag_values(event.tags@, marker_key()) matches Some(v) && (v.len() == 0
            || marker_bytes(v[0]@) is None)) ==> r is Skip,
        (event_marker(event.tags@) matches Some(m) && m != config.target@) ==> r is Skip,
        !accepts(*config, *event) ==> r is Skip,
        accepts(*config, *event) ==> payloads_of(submitted(r)) == event_payloads(event.tags@),
        routed_by_count(r),
{
    if event.kind != config.listen_kind {
        return Submission::Skip;
    }
    if !matches_network(event, &config.target) {
        return Submission::Skip;
    }
    let txs = extract_transactions(event);
    plan_submission(txs)
}

/// The lines the event loop shows for a dispatch outcome: its lines, or one
/// line naming the failure. Either way the loop goes on.
pub fn outcome_lines(outcome: Result<Vec<String>, String>) -> (r: Vec<String>)
    ensures
        match outcome {
            Ok(lines) => r@ == lines@,
            Err(e) => r@.len() == 1 && r@[0]@ == "Error broadcasting txs: "@ + e@,
        },
{
    match outcome {
        Ok(lines) => lines,
        Err(e) => {
            let mut s = String::from_str("Error broadcasting txs: ");
            s.append(e.as_str());
            let mut lines: Vec<String> = Vec::new();
            lines.push(s);
            lines
        },
    }
}

/// Extraction treats each entry on its own: the payloads of two runs of
/// entries, one after the other, are those of each run, in that order.
pub proof fn lemma_extraction_splits(a: Seq<String>, b: Seq<String>)
    ensures
        extracted_payloads(a + b) == extracted_payloads(a) + extracted_payloads(b),
    decreases b.len(),
{
    if b.len() == 0 {
        assert(a + b =~= a);
        assert(extracted_payloads(a) + extracted_payloads(b) =~= extracted_payloads(a));
    } else {
        lemma_extraction_splits(a, b.drop_last());
        assert((a + b).drop_last() =~= a + b.drop_last());
        assert((a + b).last() == b.last());
        match entry_payload(b.last()@) {
            Some(x) => {
                assert(extracted_payloads(a) + extracted_payloads(b) =~= (extracted_payloads(a)
                    + extracted_payloads(b.drop_last())).push(x));
            },
            None => {},
        }
    }
}

/// A single entry yields its payload if it is hex of a transaction, and
/// nothing otherwise.
pub proof fn lemma_extraction_of_one(e: String)
    ensures
        extracted_payloads(seq![e]) == match entry_payload(e@) {
            Some(b) => seq![b],
            None => Seq::<Seq<u8>>::empty(),
        },
{
    assert(seq![e].drop_last() =~= Seq::<String>::empty());
    assert(seq![e].last() == e);
    reveal_with_fuel(extracted_payloads, 2);
    match entry_payload(e@) {
        Some(b) => {
            assert(Seq::<Seq<u8>>::empty().push(b) =~= seq![b]);
        },
        None => {},
    }
}

/// A malformed entry among others is left out without disturbing its
/// neighbours or their order.
pub proof fn lemma_malformed_entry_dropped(a: Seq<String>, e: String, b: Seq<String>)
    requires
        entry_payload(e@) is None,
    ensures
        extracted_payloads(a + seq![e] + b) == extracted_payloads(a + b),
{
    lemma_extraction_splits(a + seq![e], b);
    lemma_extraction_splits(a, seq![e]);
    lemma_extraction_of_one(e);
    lemma_extraction_splits(a, b);
    assert(extracted_payloads(a) + Seq::<Seq<u8>>::empty() =~= extracted_payloads(a));
}

} // verus!
