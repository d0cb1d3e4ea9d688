use vstd::prelude::*;

use crate::ids::{Uid, hyphenated, hyphenated_key};
use crate::records::{Balance, BalanceModel, Cac};
use crate::payload::{
    CacPayload, CmtPayload, CmtPayloadModel, Fatal, FieldModel, FieldValue, ValueModel,
    cac_id, cac_type_index, cac_type_label, cac_well_shaped, cmt_payload_of, cmt_well_shaped,
    clone_bytes, decode_cac, decode_cmt, fields_view,
};
use crate::ledger::{Ledger, LedgerModel, cac_step, cmt_fatal, cmt_step};

verus! {

// ---------------------------------------------------------------------------
// Outbound events
// ---------------------------------------------------------------------------
/// Mathematical view of one outbound event.
#[verifier::ext_equal]
pub ghost struct EventModel {
    pub topic: Seq<char>,
    pub key: Seq<char>,
    pub fields: Seq<FieldModel>,
}

/// One outbound event: a topic, a key, and an ordered field list, handed
/// to the producer task for encoding and sending.
#[derive(PartialEq)]
pub struct ProducerData {
    pub topic: String,
    pub key: String,
    pub values: Vec<(String, FieldValue)>,
}

impl View for ProducerData {
    type V = EventModel;

    open spec fn view(&self) -> EventModel {
        EventModel { topic: self.topic@, key: self.key@, fields: fields_view(self.values@) }
    }
}

/// View of a list of outbound events.
pub open spec fn events_view(s: Seq<ProducerData>) -> Seq<EventModel> {
    s.map_values(|pd: ProducerData| pd@)
}

// ---------------------------------------------------------------------------
// Account creation
// ---------------------------------------------------------------------------
/// The one event an account-creation command emits: on success the echo
/// of the identifier with the issued IBAN, token and account type; on
/// failure the identifier with the recorded reason. Either is keyed by
/// the hyphenated command identifier.
pub open spec fn cac_event(
    m: LedgerModel,
    vs: Seq<(String, FieldValue)>,
    fresh_iban: Seq<char>,
    fresh_token: Seq<char>,
) -> EventModel
    recommends
        cac_well_shaped(vs),
{
    let id = cac_id(vs);
    let cac = cac_step(m, id, cac_type_label(vs), fresh_iban, fresh_token).cac;
    if cac.reason is None {
        EventModel {
            topic: "account_creation_confirmed"@,
            key: hyphenated(id),
            fields: seq![
                FieldModel { name: "id"@, value: ValueModel::Fixed(id) },
                FieldModel { name: "iban"@, value: ValueModel::Str(cac.iban->Some_0) },
                FieldModel { name: "token"@, value: ValueModel::Str(cac.token->Some_0) },
                FieldModel {
                    name: "a_type"@,
                    value: ValueModel::Enum(cac_type_index(vs), cac_type_label(vs)),
                },
            ],
        }
    } else {
        EventModel {
            topic: "account_creation_failed"@,
            key: hyphenated(id),
            fields: seq![
                FieldModel { name: "id"@, value: ValueModel::Fixed(id) },
                FieldModel { name: "reason"@, value: ValueModel::Str(cac.reason->Some_0) },
            ],
        }
    }
}

/// Field list of a successful account creation:
/// `[id, iban, token, a_type]`, the type echoed with ordinal and name.
pub fn acc_vec(p: &CacPayload, cac: &Cac) -> (r: Vec<(String, FieldValue)>)
    requires
        cac@.iban is Some,
        cac@.token is Some,
    ensures
        fields_view(r@) == seq![
            FieldModel { name: "id"@, value: ValueModel::Fixed(p.id@) },
            FieldModel { name: "iban"@, value: ValueModel::Str(cac@.iban->Some_0) },
            FieldModel { name: "token"@, value: ValueModel::Str(cac@.token->Some_0) },
            FieldModel {
                name: "a_type"@,
                value: ValueModel::Enum(p.type_index as int, p.type_label@),
            },
        ],
{
    match (&cac.iban, &cac.token) {
        (Option::Some(ib), Option::Some(tk)) => {
            let mut r: Vec<(String, FieldValue)> = Vec::new();
            r.push(("id".to_owned(), FieldValue::Fixed(clone_bytes(&p.id.bytes))));
            r.push(("iban".to_owned(), FieldValue::Str(ib.clone())));
            r.push(("token".to_owned(), FieldValue::Str(tk.clone())));
            r.push(("a_type".to_owned(), FieldValue::Enum(p.type_index, p.type_label.clone())));
            proof {
                assert(fields_view(r@) =~= seq![
                    FieldModel { name: "id"@, value: ValueModel::Fixed(p.id@) },
                    FieldModel { name: "iban"@, value: ValueModel::Str(cac@.iban->Some_0) },
                    FieldModel { name: "token"@, value: ValueModel::Str(cac@.token->Some_0) },
                    FieldModel {
                        name: "a_type"@,
                        value: ValueModel::Enum(p.type_index as int, p.type_label@),
                    },
                ]);
            }
            r
        },
        _ => {
            proof {
                assert(false);
            }
            Vec::new()
        },
    }
}

/// Field list of a failed command: `[id, reason]`.
pub fn fail_vec(id: &Uid, reason: String) -> (r: Vec<(String, FieldValue)>)
    ensures
        fields_view(r@) == seq![
            FieldModel { name: "id"@, value: ValueModel::Fixed(id@) },
            FieldModel { name: "reason"@, value: ValueModel::Str(reason@) },
        ],
{
    let mut r: Vec<(String, FieldValue)> = Vec::new();
    r.push(("id".to_owned(), FieldValue::Fixed(clone_bytes(&id.bytes))));
    r.push(("reason".to_owned(), FieldValue::Str(reason)));
    proof {
        assert(fields_view(r@) =~= seq![
            FieldModel { name: "id"@, value: ValueModel::Fixed(id@) },
            FieldModel { name: "reason"@, value: ValueModel::Str(reason@) },
        ]);
    }
    r
}

/// The account-creation handler: decode the typed payload, run the
/// ledger transaction, and describe the one outcome event.
///
/// `fresh_iban` and `fresh_token` come from the caller's generator and
/// are used only for a first-seen command (the generated values are
/// drawn outside the verified core).
pub fn handle_cac(
    values: &Vec<(String, FieldValue)>,
    ledger: &mut Ledger,
    fresh_iban: String,
    fresh_token: String,
) -> (r: Result<ProducerData, Fatal>)
    requires
        old(ledger)@.wf(),
    ensures
        final(ledger)@.wf(),
        r is Ok <==> cac_well_shaped(values@),
        r matches Err(e) ==> e == Fatal::BadShape && final(ledger)@ == old(ledger)@,
        r matches Ok(pd) ==> {
            &&& final(ledger)@ == cac_step(
                old(ledger)@,
                cac_id(values@),
                cac_type_label(values@),
                fresh_iban@,
                fresh_token@,
            ).ledger
            &&& pd@ == cac_event(old(ledger)@, values@, fresh_iban@, fresh_token@)
        },
{
    let ghost m = ledger@;
    let p = match decode_cac(values) {
        Result::Ok(p) => p,
        Result::Err(e) => {
            return Result::Err(e);
        },
    };
    let cac = crate::ledger::get_cac(
        ledger,
        &p.id,
        p.type_label.as_str(),
        fresh_iban,
        fresh_token,
    );
    let key = hyphenated_key(&p.id);
    let pd = match &cac.reason {
        Option::None => {
            proof {
                assert(cac@.reason is None);
            }
            ProducerData {
                topic: "account_creation_confirmed".to_owned(),
                key,
                values: acc_vec(&p, &cac),
            }
        },
        Option::Some(v) => ProducerData {
            topic: "account_creation_failed".to_owned(),
            key,
            values: fail_vec(&p.id, v.clone()),
        },
    };
    proof {
        assert(pd@ =~~= cac_event(m, values@, fresh_iban@, fresh_token@));
    }
    Result::Ok(pd)
}

// ---------------------------------------------------------------------------
// Money transfer
// ---------------------------------------------------------------------------
/// A `balance_changed` event for one mutated row, keyed by that row's
/// IBAN: the new amount, the signed amount it changed by, the other
/// party, and the payload's description.
pub open spec fn bc_event(is_from: bool, p: CmtPayloadModel, b: BalanceModel) -> EventModel {
    EventModel {
        topic: "balance_changed"@,
        key: b.iban,
        fields: seq![
            FieldModel { name: "iban"@, value: ValueModel::Str(b.iban) },
            FieldModel { name: "new_balance"@, value: ValueModel::Long(b.amount) },
            FieldModel {
                name: "changed_by"@,
                value: ValueModel::Long(if is_from { -p.amount } else { p.amount }),
            },
            FieldModel {
                name: "from_to"@,
                value: ValueModel::Str(if is_from { p.to } else { p.from }),
            },
            FieldModel { name: "description"@, value: ValueModel::Str(p.description) },
        ],
    }
}

/// The events a money-transfer command emits, in emission order: the
/// outcome first, then `balance_changed` for the debited row (if any),
/// then for the credited row (if any).
pub open spec fn cmt_events(m: LedgerModel, p: CmtPayloadModel) -> Seq<EventModel> {
    let step = cmt_step(m, p);
    let outcome = if step.cmt.reason is None {
        EventModel {
            topic: "money_transfer_confirmed"@,
            key: hyphenated(p.id),
            fields: seq![FieldModel { name: "id"@, value: ValueModel::Fixed(p.id) }],
        }
    } else {
        EventModel {
            topic: "money_transfer_failed"@,
            key: hyphenated(p.id),
            fields: seq![
                FieldModel { name: "id"@, value: ValueModel::Fixed(p.id) },
                FieldModel { name: "reason"@, value: ValueModel::Str(step.cmt.reason->Some_0) },
            ],
        }
    };
    let with_from = if step.b_from is Some {
        seq![outcome].push(bc_event(true, p, step.b_from->Some_0))
    } else {
        seq![outcome]
    };
    if step.b_to is Some {
        with_from.push(bc_event(false, p, step.b_to->Some_0))
    } else {
        with_from
    }
}

/// The `changed_by` amount of the debited row cannot be represented:
/// negating the most negative 64-bit amount. The store has then already
/// committed; the emission fails fatally.
pub open spec fn bc_neg_overflow(m: LedgerModel, p: CmtPayloadModel) -> bool {
    cmt_step(m, p).b_from is Some && p.amount == i64::MIN
}

/// Field list of a confirmed transfer: `[id]`.
pub fn mtc_vec(id: &Uid) -> (r: Vec<(String, FieldValue)>)
    ensures
        fields_view(r@) == seq![FieldModel { name: "id"@, value: ValueModel::Fixed(id@) }],
{
    let mut r: Vec<(String, FieldValue)> = Vec::new();
    r.push(("id".to_owned(), FieldValue::Fixed(clone_bytes(&id.bytes))));
    proof {
        assert(fields_view(r@) =~= seq![
            FieldModel { name: "id"@, value: ValueModel::Fixed(id@) },
        ]);
    }
    r
}

/// Builds the `balance_changed` event for one mutated balance row.
pub fn bc_data(is_from: bool, p: &CmtPayload, balance: &Balance) -> (r: ProducerData)
    requires
        is_from ==> p.amount != i64::MIN,
    ensures
        r@ == bc_event(is_from, p@, balance@),
{
    let mut vals: Vec<(String, FieldValue)> = Vec::new();
    vals.push(("iban".to_owned(), FieldValue::Str(balance.iban.clone())));
    vals.push(("new_balance".to_owned(), FieldValue::Long(balance.amount)));
    let changed_by: i64 = if is_from {
        -p.amount
    } else {
        p.amount
    };
    vals.push(("changed_by".to_owned(), FieldValue::Long(changed_by)));
    let from_to = if is_from {
        p.to.clone()
    } else {
        p.from.clone()
    };
    vals.push(("from_to".to_owned(), FieldValue::Str(from_to)));
    vals.push(("description".to_owned(), FieldValue::Str(p.description.clone())));
    let r = ProducerData { topic: "balance_changed".to_owned(), key: balance.iban.clone(), values: vals };
    proof {
        assert(r@ =~~= bc_event(is_from, p@, balance@));
    }
    r
}

/// The money-transfer handler: decode the typed payload, run the ledger
/// transaction, and describe the emitted events in order.
///
/// An `Err` is fatal. For a rejected mutation (`cmt_fatal`) the ledger is
/// untouched; for an unrepresentable `changed_by` (`bc_neg_overflow`) the
/// transaction has already committed, as it has when the events are
/// handed out, and no events are described.
pub fn handle_cmt(values: &Vec<(String, FieldValue)>, ledger: &mut Ledger) -> (r: Result<
    Vec<ProducerData>,
    Fatal,
>)
    requires
        old(ledger)@.wf(),
    ensures
        final(ledger)@.wf(),
        !cmt_well_shaped(values@) ==> (r matches Err(e) && e == Fatal::BadShape && final(ledger)@
            == old(ledger)@),
        cmt_well_shaped(values@) ==> {
            let p = cmt_payload_of(values@);
            let step = cmt_step(old(ledger)@, p);
            &&& (r is Err <==> cmt_fatal(old(ledger)@, p) || bc_neg_overflow(old(ledger)@, p))
            &&& (cmt_fatal(old(ledger)@, p) ==> final(ledger)@ == old(ledger)@)
            &&& (!cmt_fatal(old(ledger)@, p) ==> final(ledger)@ == step.ledger)
            &&& (r matches Err(e) ==> e == Fatal::AmountOutOfRange)
            &&& (r matches Ok(evs) ==> events_view(evs@) == cmt_events(old(ledger)@, p))
        },
{
    let ghost m = ledger@;
    let p = match decode_cmt(values) {
        Result::Ok(p) => p,
        Result::Err(e) => {
            return Result::Err(e);
        },
    };
    let (cmt, b_from, b_to) = match crate::ledger::get_cmt(ledger, &p) {
        Result::Ok(t) => t,
        Result::Err(e) => {
            return Result::Err(e);
        },
    };
    let key = hyphenated_key(&p.id);
    let mut out: Vec<ProducerData> = Vec::new();
    match &cmt.reason {
        Option::None => {
            out.push(ProducerData {
                topic: "money_transfer_confirmed".to_owned(),
                key,
                values: mtc_vec(&p.id),
            });
        },
        Option::Some(v) => {
            out.push(ProducerData {
                topic: "money_transfer_failed".to_owned(),
                key,
                values: fail_vec(&p.id, v.clone()),
            });
        },
    }
    let ghost step = cmt_step(m, p@);
    proof {
        assert(events_view(out@) =~~= cmt_events(m, p@).subrange(0, 1));
    }
    match b_from {
        Option::Some(b) => {
            if p.amount == i64::MIN {
                return Result::Err(Fatal::AmountOutOfRange);
            }
            out.push(bc_data(true, &p, &b));
        },
        Option::None => {},
    }
    match b_to {
        Option::Some(b) => {
            out.push(bc_data(false, &p, &b));
        },
        Option::None => {},
    }
    proof {
        assert(events_view(out@) =~~= cmt_events(m, p@));
    }
    Result::Ok(out)
}

} // verus!
