//! Choosing how decoded transactions go to the node, and what is reported
//! once the node has answered.
use vstd::prelude::*;
use crate::extract::DecodedTx;
use bitcoin::Transaction;

verus! {

/// What to ask of the node for one event's transactions.
pub enum Submission {
    /// Nothing to submit.
    Skip,
    /// One transaction, through the single-transaction call.
    Single(DecodedTx),
    /// Two or more transactions, in order, through one package call.
    Package(Vec<DecodedTx>),
}

/// The transactions that a submission hands to the node, in order.
pub open spec fn submitted(s: Submission) -> Seq<DecodedTx> {
    match s {
        Submission::Skip => Seq::empty(),
        Submission::Single(d) => seq![d],
        Submission::Package(v) => v@,
    }
}

/// Picks the node call by the number of transactions: none for zero, the
/// single call for one, one package call for more. Nothing is dropped or
/// reordered.
pub fn plan_submission(txs: Vec<DecodedTx>) -> (r: Submission)
    ensures
        (txs@.len() == 0) == (r is Skip),
        (txs@.len() == 1) == (r is Single),
        (txs@.len() >= 2) == (r is Package),
        submitted(r) == txs@,
{
    let mut txs = txs;
    if txs.len() >= 2 {
        return Submission::Package(txs);
    }
    let ghost before = txs@;
    match txs.pop() {
        None => Submission::Skip,
        Some(d) => {
            assert(before =~= seq![d]);
            Submission::Single(d)
        },
    }
}

/// A displayed transaction id: 64 lowercase hex digits.
pub open spec fn is_txid_text(s: Seq<char>) -> bool {
    &&& s.len() == 64
    &&& forall|i: int| 0 <= i < s.len() ==> (#[trigger] crate::hex::lower_nibble(s[i])) is Some
}

/// Relies on `bitcoin::Transaction::txid` and the `Display` of `Txid`,
/// which prints the 32-byte hash as lowercase hex.
#[verifier::external_body]
fn txid_text(tx: &Transaction) -> (r: String)
    ensures
        is_txid_text(r@),
{
    tx.txid().to_string()
}

/// The ids of the submitted transactions, in order.
pub fn submission_txids(s: &Submission) -> (r: Vec<String>)
    ensures
        r@.len() == submitted(*s).len(),
        forall|i: int| 0 <= i < r@.len() ==> is_txid_text(#[trigger] r@[i]@),
{
    let mut ids: Vec<String> = Vec::new();
    match s {
        Submission::Skip => {},
        Submission::Single(d) => {
            ids.push(txid_text(&d.tx));
        },
        Submission::Package(v) => {
            let mut i: usize = 0;
            while i < v.len()
                invariant
                    i <= v@.len(),
                    ids@.len() == i,
                    forall|k: int| 0 <= k < ids@.len() ==> is_txid_text(#[trigger] ids@[k]@),
                decreases v@.len() - i,
            {
                ids.push(txid_text(&v[i].tx));
                i = i + 1;
            }
        },
    }
    ids
}

/// The strings joined by commas.
pub open spec fn joined(ids: Seq<String>) -> Seq<char>
    decreases ids.len(),
{
    if ids.len() == 0 {
        Seq::empty()
    } else if ids.len() == 1 {
        ids[0]@
    } else {
        joined(ids.drop_last()) + ","@ + ids.last()@
    }
}

/// Joins the strings with commas.
pub fn join_ids(ids: &Vec<String>) -> (r: String)
    ensures
        r@ == joined(ids@),
{
    let mut out = String::new();
    let mut i: usize = 0;
    while i < ids.len()
        invariant
            i <= ids@.len(),
            out@ == joined(ids@.take(i as int)),
        decreases ids@.len() - i,
    {
        proof {
            assert(ids@.take(i + 1).drop_last() =~= ids@.take(i as int));
        }
        if i > 0 {
            out.append(",");
        }
        out.append(ids[i].as_str());
        i = i + 1;
    }
    assert(ids@.take(i as int) =~= ids@);
    out
}

/// The node's answer to a submission.
pub enum NodeReply {
    /// The single-transaction call: accepted, or the node's reason.
    Single(Result<(), String>),
    /// The package call: the node's result as text, or the call's error.
    Package(Result<String, String>),
}

/// The line that lists every submitted id.
pub open spec fn summary_line(ids: Seq<String>) -> Seq<char> {
    "Submitted transactions: "@ + joined(ids)
}

/// The report for a reply: the lines to show, or the error of a failed
/// package call. A rejected single transaction is reported, not failed.
pub open spec fn dispatch_report(ids: Seq<String>, reply: NodeReply) -> Result<Seq<Seq<char>>, Seq<char>> {
    match reply {
        NodeReply::Single(Ok(())) => Ok(seq!["Broadcasted tx: "@ + joined(ids), summary_line(ids)]),
        NodeReply::Single(Err(e)) => Ok(seq!["Error broadcasting tx: "@ + e@, summary_line(ids)]),
        NodeReply::Package(Ok(res)) => Ok(seq![res@, summary_line(ids)]),
        NodeReply::Package(Err(e)) => Err("Error submitting package: "@ + e@),
    }
}

/// The text of each line.
pub open spec fn lines_text(lines: Seq<String>) -> Seq<Seq<char>> {
    lines.map_values(|l: String| l@)
}

fn prefixed(prefix: &str, rest: &str) -> (r: String)
    ensures
        r@ == prefix@ + rest@,
{
    let mut s = String::from_str(prefix);
    s.append(rest);
    s
}

/// Turns the node's reply into the report of the submission whose ids are
/// `ids`; `None` means that no call was made, which succeeds quietly.
pub fn finish_dispatch(ids: &Vec<String>, reply: Option<NodeReply>) -> (r: Result<Vec<String>, String>)
    ensures
        reply is None ==> r is Ok && r->Ok_0@.len() == 0,
        reply matches Some(rp) ==> match (r, dispatch_report(ids@, rp)) {
            (Ok(lines), Ok(want)) => lines_text(lines@) == want,
            (Err(e), Err(want)) => e@ == want,
            _ => false,
        },
{
    let reply = match reply {
        None => {
            return Ok(Vec::new());
        },
        Some(rp) => rp,
    };
    let all = join_ids(ids);
    let mut lines: Vec<String> = Vec::new();
    match reply {
        NodeReply::Single(Ok(())) => {
            lines.push(prefixed("Broadcasted tx: ", all.as_str()));
        },
        NodeReply::Single(Err(e)) => {
            lines.push(prefixed("Error broadcasting tx: ", e.as_str()));
        },
        NodeReply::Package(Ok(res)) => {
            lines.push(res);
        },
        NodeReply::Package(Err(e)) => {
            return Err(prefixed("Error submitting package: ", e.as_str()));
        },
    }
    lines.push(prefixed("Submitted transactions: ", all.as_str()));
    assert(lines_text(lines@) =~= dispatch_report(ids@, reply)->Ok_0);
    Ok(lines)
}

} // verus!
