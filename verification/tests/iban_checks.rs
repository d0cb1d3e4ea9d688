use command_handler::iban::{check_iban, check_open_iban};
use command_handler::ledger::{get_cac, get_cmt, Ledger};
use command_handler::payload::CmtPayload;
use command_handler::ids::Uid;
use command_handler::records::Balance;

#[test]
fn open_iban_accepts_managed_shape() {
    assert!(check_open_iban("NL11OPEB0000000001"));
    assert!(check_open_iban("NL00OPEB9999999999"));
}

#[test]
fn open_iban_rejects_other_shapes() {
    assert!(!check_open_iban("NL11OPEB000000001"));
    assert!(!check_open_iban("NL11OPEB00000000012"));
    assert!(!check_open_iban("DE11OPEB0000000001"));
    assert!(!check_open_iban("NL11ABNA0000000001"));
    assert!(!check_open_iban("NL11OPEB00000000AB"));
    assert!(!check_open_iban(""));
}

#[test]
fn iban_shape_check() {
    assert!(check_iban("NL11OPEB0000000001"));
    assert!(check_iban("DE44500105175407324931"));
    assert!(!check_iban("nl11opeb0000000001"));
    assert!(!check_iban("N111OPEB0000000001"));
    assert!(!check_iban("NLXXOPEB0000000001"));
    assert!(!check_iban("NL11OPEB01"));
    assert!(!check_iban("NL11OPEB0000000001 "));
    assert!(!check_iban(""));
}

#[test]
fn get_cac_returns_row_on_replay() {
    let mut ledger = Ledger::new();
    let id = Uid { bytes: vec![9u8; 16] };
    let first = get_cac(
        &mut ledger,
        &id,
        "SAVINGS",
        "NL11OPEB0000000001".to_string(),
        "T".to_string(),
    );
    let second = get_cac(
        &mut ledger,
        &id,
        "SAVINGS",
        "NL22OPEB0000000002".to_string(),
        "U".to_string(),
    );
    assert!(first == second);
    assert_eq!(ledger.balances.len(), 1);
    assert_eq!(ledger.cacs.len(), 1);
}

#[test]
fn get_cmt_reports_mutated_rows() {
    let mut ledger = Ledger::new();
    ledger.balances.push(Balance {
        iban: "NL11OPEB0000000001".to_string(),
        token: "TA".to_string(),
        amount: 100,
        account_type: "SAVINGS".to_string(),
        limit: -50000,
    });
    let p = CmtPayload {
        id: Uid { bytes: vec![3u8; 16] },
        token: "TA".to_string(),
        amount: 40,
        from: "NL11OPEB0000000001".to_string(),
        to: "DE44500105175407324931".to_string(),
        description: "out".to_string(),
    };
    let (cmt, b_from, b_to) = get_cmt(&mut ledger, &p).unwrap();
    assert!(cmt.reason == None);
    let b_from = b_from.unwrap();
    assert_eq!(b_from.amount, 60);
    assert!(b_from.iban == "NL11OPEB0000000001");
    assert!(b_to == None);
    // The overdraft line may be drawn on, down to the limit.
    let p2 = CmtPayload {
        id: Uid { bytes: vec![4u8; 16] },
        token: "TA".to_string(),
        amount: 50060,
        from: "NL11OPEB0000000001".to_string(),
        to: "DE44500105175407324931".to_string(),
        description: "deep".to_string(),
    };
    let (cmt2, b_from2, _) = get_cmt(&mut ledger, &p2).unwrap();
    assert!(cmt2.reason == None);
    assert_eq!(b_from2.unwrap().amount, -50000);
}
