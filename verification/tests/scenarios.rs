use command_handler::handlers::{handle_cac, handle_cmt, ProducerData};
use command_handler::ids::Uid;
use command_handler::ledger::Ledger;
use command_handler::payload::{Fatal, FieldValue};
use command_handler::records::Balance;

fn uid_bytes(seed: u8) -> Vec<u8> {
    let mut v = vec![
        0x00, 0x11, 0x22, 0x33, 0x44, 0x55, 0x66, 0x77, 0x88, 0x99, 0xaa, 0xbb, 0xcc, 0xdd, 0xee,
        0xff,
    ];
    v[15] = seed;
    v
}

fn cac_values(seed: u8, index: i32, name: &str) -> Vec<(String, FieldValue)> {
    vec![
        ("id".to_string(), FieldValue::Fixed(uid_bytes(seed))),
        ("a_type".to_string(), FieldValue::Enum(index, name.to_string())),
    ]
}

fn cmt_values(
    seed: u8,
    token: &str,
    amount: i64,
    from: &str,
    to: &str,
    description: &str,
) -> Vec<(String, FieldValue)> {
    vec![
        ("id".to_string(), FieldValue::Fixed(uid_bytes(seed))),
        ("token".to_string(), FieldValue::Str(token.to_string())),
        ("amount".to_string(), FieldValue::Long(amount)),
        ("from".to_string(), FieldValue::Str(from.to_string())),
        ("to".to_string(), FieldValue::Str(to.to_string())),
        ("description".to_string(), FieldValue::Str(description.to_string())),
    ]
}

const IA: &str = "NL11OPEB0000000001";
const IB: &str = "NL22OPEB0000000002";
const IX: &str = "DE44500105175407324931";

fn two_balances() -> Ledger {
    let mut ledger = Ledger::new();
    ledger.balances.push(Balance {
        iban: IA.to_string(),
        token: "TA".to_string(),
        amount: 1000,
        account_type: "SAVINGS".to_string(),
        limit: -50000,
    });
    ledger.balances.push(Balance {
        iban: IB.to_string(),
        token: "TB".to_string(),
        amount: 500,
        account_type: "SAVINGS".to_string(),
        limit: -50000,
    });
    ledger
}

fn field(pd: &ProducerData, i: usize) -> &(String, FieldValue) {
    &pd.values[i]
}

#[test]
fn cac_success() {
    let mut ledger = Ledger::new();
    let values = cac_values(0x01, 0, "SAVINGS");
    let pd = handle_cac(&values, &mut ledger, IA.to_string(), "T".to_string()).unwrap();

    assert_eq!(ledger.balances.len(), 1);
    let b = &ledger.balances[0];
    assert!(b.iban == IA && b.token == "T" && b.amount == 0);
    assert!(b.account_type == "SAVINGS" && b.limit == -50000);

    assert_eq!(ledger.cacs.len(), 1);
    let c = &ledger.cacs[0];
    assert!(c.uuid.bytes == uid_bytes(0x01));
    assert!(c.iban == Some(IA.to_string()) && c.token == Some("T".to_string()));
    assert!(c.account_type == Some("SAVINGS".to_string()) && c.reason == None);

    assert!(pd.topic == "account_creation_confirmed");
    assert!(pd.key == "00112233-4455-6677-8899-aabbccddee01");
    assert!(*field(&pd, 0) == ("id".to_string(), FieldValue::Fixed(uid_bytes(0x01))));
    assert!(*field(&pd, 1) == ("iban".to_string(), FieldValue::Str(IA.to_string())));
    assert!(*field(&pd, 2) == ("token".to_string(), FieldValue::Str("T".to_string())));
    assert!(
        *field(&pd, 3) == ("a_type".to_string(), FieldValue::Enum(0, "SAVINGS".to_string()))
    );
    assert_eq!(pd.values.len(), 4);
}

#[test]
fn cac_replay() {
    let mut ledger = Ledger::new();
    let values = cac_values(0x01, 0, "SAVINGS");
    let first = handle_cac(&values, &mut ledger, IA.to_string(), "T".to_string()).unwrap();
    // The second run draws a different fresh IBAN and token; neither is used.
    let second = handle_cac(&values, &mut ledger, IB.to_string(), "U".to_string()).unwrap();

    assert_eq!(ledger.balances.len(), 1);
    assert_eq!(ledger.cacs.len(), 1);
    assert!(second == first);
}

#[test]
fn cac_iban_collision() {
    let mut ledger = two_balances();
    let values = cac_values(0x07, 1, "CHECKING");
    let pd = handle_cac(&values, &mut ledger, IA.to_string(), "T2".to_string()).unwrap();

    assert_eq!(ledger.balances.len(), 2);
    assert_eq!(ledger.cacs.len(), 1);
    let c = &ledger.cacs[0];
    assert!(c.iban == None && c.token == None);
    assert!(c.reason == Some("generated iban already exists, try again".to_string()));

    assert!(pd.topic == "account_creation_failed");
    assert!(pd.key == "00112233-4455-6677-8899-aabbccddee07");
    assert!(*field(&pd, 0) == ("id".to_string(), FieldValue::Fixed(uid_bytes(0x07))));
    assert!(
        *field(&pd, 1)
            == (
                "reason".to_string(),
                FieldValue::Str("generated iban already exists, try again".to_string()),
            )
    );
    assert_eq!(pd.values.len(), 2);
}

#[test]
fn cmt_success_both_managed() {
    let mut ledger = two_balances();
    let values = cmt_values(0x02, "TA", 300, IA, IB, "rent");
    let evs = handle_cmt(&values, &mut ledger).unwrap();

    assert_eq!(ledger.balances[0].amount, 700);
    assert_eq!(ledger.balances[1].amount, 800);
    assert_eq!(ledger.cmts.len(), 1);
    assert!(ledger.cmts[0].uuid.bytes == uid_bytes(0x02));
    assert!(ledger.cmts[0].reason == None);

    assert_eq!(evs.len(), 3);
    assert!(evs[0].topic == "money_transfer_confirmed");
    assert!(evs[0].key == "00112233-4455-6677-8899-aabbccddee02");
    assert!(evs[0].values == vec![("id".to_string(), FieldValue::Fixed(uid_bytes(0x02)))]);

    assert!(evs[1].topic == "balance_changed");
    assert!(evs[1].key == IA);
    assert!(
        evs[1].values
            == vec![
                ("iban".to_string(), FieldValue::Str(IA.to_string())),
                ("new_balance".to_string(), FieldValue::Long(700)),
                ("changed_by".to_string(), FieldValue::Long(-300)),
                ("from_to".to_string(), FieldValue::Str(IB.to_string())),
                ("description".to_string(), FieldValue::Str("rent".to_string())),
            ]
    );

    assert!(evs[2].topic == "balance_changed");
    assert!(evs[2].key == IB);
    assert!(
        evs[2].values
            == vec![
                ("iban".to_string(), FieldValue::Str(IB.to_string())),
                ("new_balance".to_string(), FieldValue::Long(800)),
                ("changed_by".to_string(), FieldValue::Long(300)),
                ("from_to".to_string(), FieldValue::Str(IA.to_string())),
                ("description".to_string(), FieldValue::Str("rent".to_string())),
            ]
    );
}

#[test]
fn cmt_replay_emits_outcome_only() {
    let mut ledger = two_balances();
    let values = cmt_values(0x02, "TA", 300, IA, IB, "rent");
    let first = handle_cmt(&values, &mut ledger).unwrap();
    let second = handle_cmt(&values, &mut ledger).unwrap();

    assert_eq!(ledger.balances[0].amount, 700);
    assert_eq!(ledger.balances[1].amount, 800);
    assert_eq!(ledger.cmts.len(), 1);
    assert_eq!(second.len(), 1);
    assert!(second[0] == first[0]);
}

#[test]
fn cmt_insufficient_funds() {
    let mut ledger = two_balances();
    let values = cmt_values(0x03, "TA", 1_100_000, IA, IB, "rent");
    let evs = handle_cmt(&values, &mut ledger).unwrap();

    assert_eq!(ledger.balances[0].amount, 1000);
    assert_eq!(ledger.balances[1].amount, 500);
    assert_eq!(ledger.cmts.len(), 1);
    assert!(ledger.cmts[0].reason == Some("insufficient funds".to_string()));

    assert_eq!(evs.len(), 1);
    assert!(evs[0].topic == "money_transfer_failed");
    assert!(evs[0].key == "00112233-4455-6677-8899-aabbccddee03");
    assert!(
        evs[0].values
            == vec![
                ("id".to_string(), FieldValue::Fixed(uid_bytes(0x03))),
                ("reason".to_string(), FieldValue::Str("insufficient funds".to_string())),
            ]
    );
}

#[test]
fn cmt_bad_token() {
    let mut ledger = two_balances();
    let values = cmt_values(0x04, "WRONG", 300, IA, IB, "rent");
    let evs = handle_cmt(&values, &mut ledger).unwrap();

    assert_eq!(ledger.balances[0].amount, 1000);
    assert_eq!(ledger.balances[1].amount, 500);
    assert!(ledger.cmts[0].reason == Some("invalid token".to_string()));

    assert_eq!(evs.len(), 1);
    assert!(evs[0].topic == "money_transfer_failed");
    assert!(
        evs[0].values
            == vec![
                ("id".to_string(), FieldValue::Fixed(uid_bytes(0x04))),
                ("reason".to_string(), FieldValue::Str("invalid token".to_string())),
            ]
    );
}

#[test]
fn cmt_external_from_credits_managed_to() {
    let mut ledger = two_balances();
    let values = cmt_values(0x05, "NONE", 200, IX, IB, "gift");
    let evs = handle_cmt(&values, &mut ledger).unwrap();

    assert_eq!(ledger.balances[0].amount, 1000);
    assert_eq!(ledger.balances[1].amount, 700);
    assert!(ledger.cmts[0].reason == None);

    assert_eq!(evs.len(), 2);
    assert!(evs[0].topic == "money_transfer_confirmed");
    assert!(evs[1].topic == "balance_changed");
    assert!(evs[1].key == IB);
    assert!(
        evs[1].values
            == vec![
                ("iban".to_string(), FieldValue::Str(IB.to_string())),
                ("new_balance".to_string(), FieldValue::Long(700)),
                ("changed_by".to_string(), FieldValue::Long(200)),
                ("from_to".to_string(), FieldValue::Str(IX.to_string())),
                ("description".to_string(), FieldValue::Str("gift".to_string())),
            ]
    );
}

#[test]
fn cmt_self_transfer_rejected() {
    let mut ledger = two_balances();
    let values = cmt_values(0x06, "TA", 100, IA, IA, "loop");
    let evs = handle_cmt(&values, &mut ledger).unwrap();

    assert_eq!(ledger.balances[0].amount, 1000);
    assert!(
        ledger.cmts[0].reason == Some("from and to can't be same for transfer".to_string())
    );
    assert_eq!(evs.len(), 1);
    assert!(evs[0].topic == "money_transfer_failed");
}

#[test]
fn cmt_invalid_from_rejected() {
    let mut ledger = two_balances();
    let values = cmt_values(0x08, "TA", 100, "nonsense", IB, "x");
    let evs = handle_cmt(&values, &mut ledger).unwrap();

    assert_eq!(ledger.balances[0].amount, 1000);
    assert_eq!(ledger.balances[1].amount, 500);
    assert!(ledger.cmts[0].reason == Some("from is invalid".to_string()));
    assert_eq!(evs.len(), 1);
    assert!(evs[0].topic == "money_transfer_failed");
}

#[test]
fn cmt_managed_from_without_row_is_skipped() {
    let mut ledger = two_balances();
    // A managed-shaped IBAN with no balance row: no debit is owed, the
    // transfer is accepted and only the credit side moves.
    let values = cmt_values(0x09, "TA", 50, "NL99OPEB0000000099", IB, "x");
    let evs = handle_cmt(&values, &mut ledger).unwrap();

    assert_eq!(ledger.balances[0].amount, 1000);
    assert_eq!(ledger.balances[1].amount, 550);
    assert!(ledger.cmts[0].reason == None);
    assert_eq!(evs.len(), 2);
    assert!(evs[0].topic == "money_transfer_confirmed");
    assert!(evs[1].key == IB);
}

#[test]
fn cac_bad_shape_is_fatal() {
    let mut ledger = Ledger::new();
    let values = vec![("id".to_string(), FieldValue::Long(5))];
    let r = handle_cac(&values, &mut ledger, IA.to_string(), "T".to_string());
    assert!(r == Err(Fatal::BadShape));
    assert_eq!(ledger.cacs.len(), 0);
    assert_eq!(ledger.balances.len(), 0);
}

#[test]
fn cmt_bad_shape_is_fatal() {
    let mut ledger = two_balances();
    let mut values = cmt_values(0x0a, "TA", 300, IA, IB, "rent");
    values[2] = ("amount".to_string(), FieldValue::Str("300".to_string()));
    let r = handle_cmt(&values, &mut ledger);
    assert!(r == Err(Fatal::BadShape));
    assert_eq!(ledger.cmts.len(), 0);
    assert_eq!(ledger.balances[0].amount, 1000);
}

#[test]
fn cmt_debit_out_of_range_is_fatal() {
    let mut ledger = two_balances();
    // Debiting i64::MIN means adding 2^63 to the thousand-strong balance,
    // which cannot be stored: the transaction aborts and writes nothing.
    let values = cmt_values(0x0b, "TA", i64::MIN, IA, IB, "x");
    let r = handle_cmt(&values, &mut ledger);
    assert!(r == Err(Fatal::AmountOutOfRange));
    assert_eq!(ledger.cmts.len(), 0);
    assert_eq!(ledger.balances[0].amount, 1000);
    assert_eq!(ledger.balances[1].amount, 500);
}

#[test]
fn cmt_credit_out_of_range_is_fatal() {
    let mut ledger = two_balances();
    ledger.balances[1].amount = i64::MAX;
    let values = cmt_values(0x0c, "TA", 1, IA, IB, "x");
    let r = handle_cmt(&values, &mut ledger);
    assert!(r == Err(Fatal::AmountOutOfRange));
    assert_eq!(ledger.cmts.len(), 0);
    assert_eq!(ledger.balances[0].amount, 1000);
    assert_eq!(ledger.balances[1].amount, i64::MAX);
}

#[test]
fn uid_key_matches_uuid_crate() {
    let mut ledger = Ledger::new();
    let bytes = vec![
        0xde, 0xad, 0xbe, 0xef, 0x01, 0x23, 0x45, 0x67, 0x89, 0xab, 0xcd, 0xef, 0x10, 0x32, 0x54,
        0x76,
    ];
    let values = vec![
        ("id".to_string(), FieldValue::Fixed(bytes.clone())),
        ("a_type".to_string(), FieldValue::Enum(0, "SAVINGS".to_string())),
    ];
    let pd = handle_cac(&values, &mut ledger, IA.to_string(), "T".to_string()).unwrap();
    let mut arr = [0u8; 16];
    arr.copy_from_slice(&bytes);
    let expected = uuid::Uuid::from_bytes(arr).hyphenated().to_string();
    assert_eq!(pd.key, expected);
    assert_eq!(pd.key, "deadbeef-0123-4567-89ab-cdef10325476");
}

#[test]
fn uid_equality_by_bytes() {
    let a = Uid { bytes: uid_bytes(1) };
    let b = Uid { bytes: uid_bytes(1) };
    let c = Uid { bytes: uid_bytes(2) };
    assert!(a.eq_uid(&b));
    assert!(!a.eq_uid(&c));
}

#[test]
fn cmt_managed_from_external_to_debits_only() {
    let mut ledger = two_balances();
    let values = cmt_values(0x0d, "TA", 250, IA, IX, "abroad");
    let evs = handle_cmt(&values, &mut ledger).unwrap();

    assert_eq!(ledger.balances[0].amount, 750);
    assert_eq!(ledger.balances[1].amount, 500);
    assert!(ledger.cmts[0].reason == None);

    assert_eq!(evs.len(), 2);
    assert!(evs[0].topic == "money_transfer_confirmed");
    assert!(evs[1].topic == "balance_changed");
    assert!(evs[1].key == IA);
    assert!(
        evs[1].values
            == vec![
                ("iban".to_string(), FieldValue::Str(IA.to_string())),
                ("new_balance".to_string(), FieldValue::Long(750)),
                ("changed_by".to_string(), FieldValue::Long(-250)),
                ("from_to".to_string(), FieldValue::Str(IX.to_string())),
                ("description".to_string(), FieldValue::Str("abroad".to_string())),
            ]
    );
}

#[test]
fn cmt_failed_replay_emits_same_failure() {
    let mut ledger = two_balances();
    let values = cmt_values(0x0e, "WRONG", 300, IA, IB, "rent");
    let first = handle_cmt(&values, &mut ledger).unwrap();
    let second = handle_cmt(&values, &mut ledger).unwrap();

    assert_eq!(ledger.cmts.len(), 1);
    assert_eq!(ledger.balances[0].amount, 1000);
    assert_eq!(first.len(), 1);
    assert_eq!(second.len(), 1);
    assert!(second[0] == first[0]);
    assert!(second[0].topic == "money_transfer_failed");
}
