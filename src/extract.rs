//! Pulling the transactions out of an event's transaction tag.
use vstd::prelude::*;
use crate::event::{Event, find_tag, first_tag_values, lemma_found_values};
use crate::hex::{decode_payload_hex, payload_bytes};
use bitcoin::Transaction;

verus! {

#[verifier::external_type_specification]
#[verifier::external_body]
pub struct ExTransaction(bitcoin::Transaction);

/// Whether bitcoin's consensus decoding reads a transaction from the front
/// of these bytes.
pub uninterp spec fn decodes_as_transaction(b: Seq<u8>) -> bool;

/// Relies on `Decodable::consensus_decode` for `bitcoin::Transaction`,
/// reading from a byte slice: success depends on the bytes alone.
#[verifier::external_body]
fn decode_transaction(b: &[u8]) -> (r: Option<Transaction>)
    ensures
        r is Some == decodes_as_transaction(b@),
{
    let mut reader = b;
    <Transaction as bitcoin::consensus::Decodable>::consensus_decode(&mut reader).ok()
}

/// A transaction together with the payload bytes it was decoded from.
pub struct DecodedTx {
    pub payload: Vec<u8>,
    pub tx: Transaction,
}

/// The payload bytes of each decoded transaction, in order.
pub open spec fn payloads_of(txs: Seq<DecodedTx>) -> Seq<Seq<u8>> {
    txs.map_values(|d: DecodedTx| d.payload@)
}

/// The bytes of one tag entry, if it is lowercase hex of a decodable
/// transaction.
pub open spec fn entry_payload(s: Seq<char>) -> Option<Seq<u8>> {
    match payload_bytes(s) {
        Some(b) => if decodes_as_transaction(b) {
            Some(b)
        } else {
            None
        },
        None => None,
    }
}

/// The payloads of the well-formed entries, in their order; the others are
/// left out.
pub open spec fn extracted_payloads(entries: Seq<String>) -> Seq<Seq<u8>>
    decreases entries.len(),
{
    if entries.len() == 0 {
        Seq::empty()
    } else {
        let rest = extracted_payloads(entries.drop_last());
        match entry_payload(entries.last()@) {
            Some(b) => rest.push(b),
            None => rest,
        }
    }
}

/// Name of the tag that carries the transactions.
pub open spec fn transactions_key() -> Seq<char> {
    seq!['t', 'r', 'a', 'n', 's', 'a', 'c', 't', 'i', 'o', 'n', 's']
}

/// The name of the transactions tag, as a string.
pub fn transactions_key_string() -> (r: String)
    ensures
        r@ == transactions_key(),
{
    let s = String::from_str("transactions");
    proof {
        reveal_strlit("transactions");
    }
    assert(s@ =~= transactions_key());
    s
}

/// The payloads an event carries: those of the well-formed entries of its
/// first transactions tag, or none without such a tag.
pub open spec fn event_payloads(tags: Seq<Vec<String>>) -> Seq<Seq<u8>> {
    match first_tag_values(tags, transactions_key()) {
        Some(v) => extracted_payloads(v),
        None => Seq::empty(),
    }
}

/// Decodes the entries of `tag` after its name, keeping the order and
/// dropping every entry that is not hex of a transaction.
pub fn decode_tag_entries(tag: &Vec<String>) -> (r: Vec<DecodedTx>)
    requires
        tag@.len() > 0,
    ensures
        payloads_of(r@) == extracted_payloads(tag@.subrange(1, tag@.len() as int)),
{
    let ghost entries = tag@.subrange(1, tag@.len() as int);
    let mut out: Vec<DecodedTx> = Vec::new();
    let mut j: usize = 1;
    while j < tag.len()
        invariant
            1 <= j <= tag@.len(),
            entries == tag@.subrange(1, tag@.len() as int),
            payloads_of(out@) == extracted_payloads(entries.take(j - 1)),
        decreases tag@.len() - j,
    {
        proof {
            assert(entries.take(j as int).drop_last() =~= entries.take(j - 1));
            assert(entries.take(j as int).last() == tag@[j as int]);
        }
        match decode_payload_hex(tag[j].as_str()) {
            Some(bytes) => {
                match decode_transaction(bytes.as_slice()) {
                    Some(tx) => {
                        let ghost before = out@;
                        out.push(DecodedTx { payload: bytes, tx });
                        assert(payloads_of(out@) =~= payloads_of(before).push(out@.last().payload@));
                    },
                    None => {},
                }
            },
            None => {},
        }
        j = j + 1;
    }
    proof {
        assert(entries.take(j - 1) =~= entries);
    }
    out
}

/// The transactions of the event's first transactions tag, in tag order,
/// without the malformed entries; empty where there is no such tag.
pub fn extract_transactions(event: &Event) -> (r: Vec<DecodedTx>)
    ensures
        payloads_of(r@) == event_payloads(event.tags@),
{
    let key = transactions_key_string();
    let found = find_tag(&event.tags, &key);
    proof {
        lemma_found_values(event.tags@, key@, found);
    }
    match found {
        None => {
            let out: Vec<DecodedTx> = Vec::new();
            assert(payloads_of(out@) =~= Seq::<Seq<u8>>::empty());
            out
        },
        Some(i) => decode_tag_entries(&event.tags[i]),
    }
}

} // verus!
