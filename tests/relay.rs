use txbridge::dispatch::{
    finish_dispatch, join_ids, plan_submission, submission_txids, NodeReply, Submission,
};
use txbridge::event::{find_tag, Event};
use txbridge::extract::{decode_tag_entries, extract_transactions, transactions_key_string};
use txbridge::network::{marker_key_string, matches_network, Network};
use txbridge::pipeline::{handle_event, outcome_lines, BridgeConfig, TRANSACTION_EVENT_KIND};

const TX_A: &str = "0100000001a15d57094aa7a21a28cb20b59aab8fc7d1149a3bdbcddba9c622e4f5f6a99ece010000006c493046022100f93bb0e7d8db7bd46e40132d1f8242026e045f03a0efe71bbb8e3f475e970d790221009337cd7f1f929f00cc6ff01f03729b069a7c21b59b1736ddfee5db5946c5da8c0121033b9b137ee87d5a812d6f506efdd37f0affa7ffc310711c06c7f3e097c9447c52ffffffff0100e1f505000000001976a9140389035a9225b3839e2bbf32d826a1e222031fd888ac00000000";
const TXID_A: &str = "a6eab3c14ab5272a58a5ba91505ba1a4b6d7a3a9fcbd187b6cd99a7b6d548cb7";
const TX_B: &str = "02000000000101595895ea20179de87052b4046dfe6fd515860505d6511a9004cf12a1f93cac7c0100000000ffffffff01deb807000000000017a9140f3444e271620c736808aa7b33e370bd87cb5a078702483045022100fb60dad8df4af2841adc0346638c16d0b8035f5e3f3753b88db122e70c79f9370220756e6633b17fd2710e626347d28d60b0a2d6cbb41de51740644b9fb3ba7751040121028fa937ca8cba2197a37c007176ed8941055d3bcb8627d085e94553e62f057dcc00000000";
const TXID_B: &str = "f5864806e3565c34d1b41e716f72609d00b55ea5eac5b924c9719a842ef42206";

fn tag(parts: &[&str]) -> Vec<String> {
    parts.iter().map(|p| p.to_string()).collect()
}

fn tx_event(kind: u64, marker: Option<&str>, txs: Option<&[&str]>) -> Event {
    let mut tags = vec![tag(&["p", "abcdef"])];
    if let Some(m) = marker {
        tags.push(tag(&["magic", m]));
    }
    if let Some(list) = txs {
        let mut t = vec!["transactions".to_string()];
        t.extend(list.iter().map(|s| s.to_string()));
        tags.push(t);
    }
    Event { kind, tags }
}

fn hex_bytes(s: &str) -> Vec<u8> {
    (0..s.len() / 2).map(|i| u8::from_str_radix(&s[2 * i..2 * i + 2], 16).unwrap()).collect()
}

fn mainnet() -> BridgeConfig {
    BridgeConfig::new(Network::Bitcoin)
}

#[test]
fn config_markers_per_network() {
    assert_eq!(BridgeConfig::new(Network::Bitcoin).target, [0xF9, 0xBE, 0xB4, 0xD9]);
    assert_eq!(BridgeConfig::new(Network::Testnet).target, [0x0B, 0x11, 0x09, 0x07]);
    assert_eq!(BridgeConfig::new(Network::Signet).target, [0x0A, 0x03, 0xCF, 0x40]);
    assert_eq!(BridgeConfig::new(Network::Regtest).target, [0xFA, 0xBF, 0xB5, 0xDA]);
    assert_eq!(mainnet().listen_kind, 28333);
    assert_eq!(TRANSACTION_EVENT_KIND, 28333);
}

#[test]
fn other_kind_is_skipped() {
    let ev = tx_event(1, Some("f9beb4d9"), Some(&[TX_A, TX_B]));
    assert!(matches!(handle_event(&mainnet(), &ev), Submission::Skip));
}

#[test]
fn missing_marker_is_skipped() {
    let ev = tx_event(28333, None, Some(&[TX_A, TX_B]));
    assert!(!matches_network(&ev, &mainnet().target));
    assert!(matches!(handle_event(&mainnet(), &ev), Submission::Skip));
}

#[test]
fn malformed_marker_is_skipped() {
    for bad in ["f9beb4", "f9beb4d9aa", "f9beb4zz", "", "f9beb4d\u{e9}"] {
        let ev = tx_event(28333, Some(bad), Some(&[TX_A, TX_B]));
        assert!(!matches_network(&ev, &mainnet().target), "{bad}");
        assert!(matches!(handle_event(&mainnet(), &ev), Submission::Skip));
    }
    let mut ev = tx_event(28333, None, Some(&[TX_A]));
    ev.tags.push(tag(&["magic"]));
    assert!(!matches_network(&ev, &mainnet().target));
}

#[test]
fn other_network_marker_is_skipped() {
    let ev = tx_event(28333, Some("0b110907"), Some(&[TX_A, TX_B]));
    assert!(!matches_network(&ev, &mainnet().target));
    assert!(matches!(handle_event(&mainnet(), &ev), Submission::Skip));
    let testnet = BridgeConfig::new(Network::Testnet);
    assert!(matches!(handle_event(&testnet, &ev), Submission::Package(_)));
}

#[test]
fn marker_hex_of_either_case_matches() {
    let ev = tx_event(28333, Some("F9BEB4D9"), None);
    assert!(matches_network(&ev, &mainnet().target));
    let ev = tx_event(28333, Some("f9BEb4d9"), None);
    assert!(matches_network(&ev, &mainnet().target));
}

#[test]
fn first_marker_tag_wins() {
    let mut ev = tx_event(28333, Some("0b110907"), None);
    ev.tags.push(tag(&["magic", "f9beb4d9"]));
    assert!(!matches_network(&ev, &mainnet().target));
}

#[test]
fn valid_entries_kept_in_order() {
    let ev = tx_event(28333, Some("f9beb4d9"), Some(&[TX_A, "not-hex", TX_B]));
    let txs = extract_transactions(&ev);
    assert_eq!(txs.len(), 2);
    assert_eq!(txs[0].payload, hex_bytes(TX_A));
    assert_eq!(txs[1].payload, hex_bytes(TX_B));
    match handle_event(&mainnet(), &ev) {
        Submission::Package(v) => {
            assert_eq!(v.len(), 2);
            assert_eq!(v[0].payload, hex_bytes(TX_A));
            assert_eq!(v[1].payload, hex_bytes(TX_B));
            let ids = submission_txids(&Submission::Package(v));
            assert_eq!(ids, vec![TXID_A.to_string(), TXID_B.to_string()]);
        }
        _ => panic!("expected a package"),
    }
}

#[test]
fn malformed_entries_dropped() {
    let upper = TX_A.to_uppercase();
    let odd = &TX_A[1..];
    let entries = [upper.as_str(), odd, "00", "", TX_B, "zz"];
    let ev = tx_event(28333, Some("f9beb4d9"), Some(&entries));
    let txs = extract_transactions(&ev);
    assert_eq!(txs.len(), 1);
    assert_eq!(txs[0].payload, hex_bytes(TX_B));
}

#[test]
fn first_transactions_tag_wins() {
    let mut ev = tx_event(28333, Some("f9beb4d9"), Some(&[TX_B]));
    ev.tags.push(tag(&["transactions", TX_A, TX_A]));
    let txs = extract_transactions(&ev);
    assert_eq!(txs.len(), 1);
    assert_eq!(txs[0].payload, hex_bytes(TX_B));
}

#[test]
fn missing_transactions_tag_gives_nothing() {
    let ev = tx_event(28333, Some("f9beb4d9"), None);
    assert!(extract_transactions(&ev).is_empty());
    assert!(matches!(handle_event(&mainnet(), &ev), Submission::Skip));
    let out = finish_dispatch(&Vec::new(), None);
    assert_eq!(out, Ok(Vec::new()));
}

#[test]
fn empty_list_submits_nothing() {
    let s = plan_submission(Vec::new());
    assert!(matches!(s, Submission::Skip));
    assert!(submission_txids(&s).is_empty());
    assert_eq!(finish_dispatch(&Vec::new(), None), Ok(Vec::new()));
}

#[test]
fn one_transaction_goes_single() {
    let ev = tx_event(28333, Some("f9beb4d9"), Some(&["nope", TX_A]));
    let s = handle_event(&mainnet(), &ev);
    match &s {
        Submission::Single(d) => assert_eq!(d.payload, hex_bytes(TX_A)),
        _ => panic!("expected a single submission"),
    }
    assert_eq!(submission_txids(&s), vec![TXID_A.to_string()]);
}

#[test]
fn many_transactions_go_as_package() {
    let ev = tx_event(28333, Some("f9beb4d9"), Some(&[TX_B, TX_A, TX_B]));
    match handle_event(&mainnet(), &ev) {
        Submission::Package(v) => {
            let p: Vec<Vec<u8>> = v.iter().map(|d| d.payload.clone()).collect();
            assert_eq!(p, vec![hex_bytes(TX_B), hex_bytes(TX_A), hex_bytes(TX_B)]);
        }
        _ => panic!("expected a package"),
    }
}

#[test]
fn single_reply_lines() {
    let ids = vec![TXID_A.to_string()];
    let ok = finish_dispatch(&ids, Some(NodeReply::Single(Ok(())))).unwrap();
    assert_eq!(ok, vec![
        format!("Broadcasted tx: {TXID_A}"),
        format!("Submitted transactions: {TXID_A}"),
    ]);
    let rejected =
        finish_dispatch(&ids, Some(NodeReply::Single(Err("bad-txns".to_string())))).unwrap();
    assert_eq!(rejected, vec![
        "Error broadcasting tx: bad-txns".to_string(),
        format!("Submitted transactions: {TXID_A}"),
    ]);
}

#[test]
fn package_reply_lines() {
    let ids = vec![TXID_A.to_string(), TXID_B.to_string()];
    let ok = finish_dispatch(&ids, Some(NodeReply::Package(Ok("accepted".to_string())))).unwrap();
    assert_eq!(ok, vec![
        "accepted".to_string(),
        format!("Submitted transactions: {TXID_A},{TXID_B}"),
    ]);
}

#[test]
fn package_failure_is_reported_and_loop_goes_on() {
    let ids = vec![TXID_A.to_string(), TXID_B.to_string()];
    let out = finish_dispatch(&ids, Some(NodeReply::Package(Err("rpc down".to_string()))));
    assert_eq!(out, Err("Error submitting package: rpc down".to_string()));
    assert_eq!(outcome_lines(out), vec!["Error broadcasting txs: Error submitting package: rpc down".to_string()]);
    let next = tx_event(28333, Some("f9beb4d9"), Some(&[TX_A]));
    assert!(matches!(handle_event(&mainnet(), &next), Submission::Single(_)));
}

#[test]
fn outcome_lines_pass_through() {
    let lines = vec!["a".to_string(), "b".to_string()];
    assert_eq!(outcome_lines(Ok(lines.clone())), lines);
}

#[test]
fn ids_joined_with_commas() {
    assert_eq!(join_ids(&vec![]), "");
    assert_eq!(join_ids(&vec!["x".to_string()]), "x");
    assert_eq!(join_ids(&vec!["x".to_string(), "yz".to_string(), "w".to_string()]), "x,yz,w");
}

#[test]
fn tag_lookup_finds_first() {
    let tags = vec![tag(&[]), tag(&["a", "1"]), tag(&["magic", "2"]), tag(&["magic", "3"])];
    assert_eq!(find_tag(&tags, &marker_key_string()), Some(2));
    assert_eq!(find_tag(&tags, &transactions_key_string()), None);
    assert_eq!(marker_key_string(), "magic");
    assert_eq!(transactions_key_string(), "transactions");
}

#[test]
fn tag_entries_decode_after_name() {
    let t = tag(&[TX_A, TX_B]);
    let txs = decode_tag_entries(&t);
    assert_eq!(txs.len(), 1);
    assert_eq!(txs[0].payload, hex_bytes(TX_B));
}
