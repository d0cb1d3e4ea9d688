use vstd::prelude::*;

use crate::iban::{valid_iban, valid_open_iban};
use crate::ids::hyphenated;
use crate::payload::{CmtPayloadModel, FieldModel, FieldValue, ValueModel, cac_id, cac_type_label,
    cac_well_shaped};
use crate::ledger::{LedgerModel, balance_at, cac_step, cmt_fatal, cmt_step, has_balance, has_cmt,
    lemma_balance_at, lemma_cac_at, lemma_cmt_at, update_amount, from_debits, to_credits,
    distinct_ibans};
use crate::handlers::{cac_event, cmt_events};

verus! {

// ---------------------------------------------------------------------------
// Preservation of the store invariants
// ---------------------------------------------------------------------------
/// The account-creation transaction preserves the store invariants.
pub proof fn lemma_cac_step_wf(
    m: LedgerModel,
    id: Seq<u8>,
    account_type: Seq<char>,
    fresh_iban: Seq<char>,
    fresh_token: Seq<char>,
)
    requires
        m.wf(),
        id.len() == 16,
    ensures
        cac_step(m, id, account_type, fresh_iban, fresh_token).ledger.wf(),
{
}

/// The money-transfer transaction preserves the store invariants, as
/// long as the mutation is storable (a non-storable one aborts and
/// leaves the ledger as it was).
pub proof fn lemma_cmt_step_wf(m: LedgerModel, p: CmtPayloadModel)
    requires
        m.wf(),
        p.wf(),
        !cmt_fatal(m, p),
    ensures
        cmt_step(m, p).ledger.wf(),
{
    if !has_cmt(m.cmts, p.id) {
        let bs2 = cmt_step(m, p).ledger.balances;
        assert forall|i: int| 0 <= i < bs2.len() implies (#[trigger] bs2[i]).wf() by {
            assert(m.balances[i].wf());
        }
    }
}

// ---------------------------------------------------------------------------
// Idempotency
// ---------------------------------------------------------------------------
/// Replaying an account-creation command changes nothing and yields the
/// stored row, whatever fresh IBAN and token the second run drew; the
/// one outcome event has identical content.
pub proof fn lemma_cac_idempotent(
    m: LedgerModel,
    vs: Seq<(String, FieldValue)>,
    iban1: Seq<char>,
    token1: Seq<char>,
    iban2: Seq<char>,
    token2: Seq<char>,
)
    requires
        m.wf(),
        cac_well_shaped(vs),
    ensures
        ({
            let s1 = cac_step(m, cac_id(vs), cac_type_label(vs), iban1, token1);
            let s2 = cac_step(s1.ledger, cac_id(vs), cac_type_label(vs), iban2, token2);
            &&& s2.ledger == s1.ledger
            &&& s2.cac == s1.cac
            &&& cac_event(s1.ledger, vs, iban2, token2) == cac_event(m, vs, iban1, token1)
        }),
{
    let id = cac_id(vs);
    let tp = cac_type_label(vs);
    let s1 = cac_step(m, id, tp, iban1, token1);
    lemma_cac_step_wf(m, id, tp, iban1, token1);
    if crate::ledger::has_cac(m.cacs, id) {
    } else {
        let n = m.cacs.len() as int;
        assert(s1.ledger.cacs[n].uuid == id);
        lemma_cac_at(s1.ledger.cacs, n);
    }
}

/// Replaying a money-transfer command changes nothing, yields the stored
/// row and no balance rows, and emits exactly the outcome event of the
/// first run, with identical content.
pub proof fn lemma_cmt_idempotent(m: LedgerModel, p: CmtPayloadModel)
    requires
        m.wf(),
        p.wf(),
        !cmt_fatal(m, p),
    ensures
        ({
            let s1 = cmt_step(m, p);
            let s2 = cmt_step(s1.ledger, p);
            &&& s2.ledger == s1.ledger
            &&& s2.cmt == s1.cmt
            &&& s2.b_from is None
            &&& s2.b_to is None
            &&& cmt_events(s1.ledger, p) == seq![cmt_events(m, p)[0]]
        }),
{
    let s1 = cmt_step(m, p);
    lemma_cmt_step_wf(m, p);
    if has_cmt(m.cmts, p.id) {
        assert(cmt_events(s1.ledger, p) =~= seq![cmt_events(m, p)[0]]);
    } else {
        let n = m.cmts.len() as int;
        assert(s1.ledger.cmts[n].uuid == p.id);
        lemma_cmt_at(s1.ledger.cmts, n);
        assert(cmt_step(s1.ledger, p).cmt == s1.cmt);
        assert(cmt_events(s1.ledger, p) =~= seq![cmt_events(m, p)[0]]);
    }
}

// ---------------------------------------------------------------------------
// Conservation, overdraft limit, token gate, self-transfer
// ---------------------------------------------------------------------------
/// A successful transfer between two managed, open accounts conserves
/// value: the debited row loses exactly the payload amount and the
/// credited row gains it.
pub proof fn lemma_cmt_conservation(m: LedgerModel, p: CmtPayloadModel)
    requires
        m.wf(),
        p.wf(),
        !has_cmt(m.cmts, p.id),
        valid_open_iban(p.from),
        valid_open_iban(p.to),
        has_balance(m.balances, p.from),
        has_balance(m.balances, p.to),
        cmt_step(m, p).cmt.reason is None,
    ensures
        ({
            let bs0 = m.balances;
            let bs2 = cmt_step(m, p).ledger.balances;
            let d_from = balance_at(bs2, p.from).amount - balance_at(bs0, p.from).amount;
            let d_to = balance_at(bs2, p.to).amount - balance_at(bs0, p.to).amount;
            &&& d_from == -p.amount
            &&& d_to == p.amount
            &&& d_from + d_to == 0
        }),
{
    let bs0 = m.balances;
    crate::iban::lemma_open_iban_is_valid(p.from);
    assert(p.from != p.to);
    assert(from_debits(bs0, p));
    assert(to_credits(bs0, p));
    let i = choose|i: int| 0 <= i < bs0.len() && (#[trigger] bs0[i]).iban == p.from;
    let j = choose|j: int| 0 <= j < bs0.len() && (#[trigger] bs0[j]).iban == p.to;
    lemma_balance_at(bs0, i);
    lemma_balance_at(bs0, j);
    assert(i != j);
    let new_from = balance_at(bs0, p.from).amount - p.amount;
    let new_to = balance_at(bs0, p.to).amount + p.amount;
    let bs1 = update_amount(bs0, p.from, new_from);
    let bs2 = update_amount(bs1, p.to, new_to);
    assert(cmt_step(m, p).ledger.balances == bs2);
    assert(bs2[i].iban == p.from && bs2[i].amount == new_from);
    assert(bs2[j].iban == p.to && bs2[j].amount == new_to);
    assert(distinct_ibans(bs2));
    lemma_balance_at(bs2, i);
    lemma_balance_at(bs2, j);
}

/// No transfer of a non-negative amount leaves any balance under its
/// overdraft limit.
pub proof fn lemma_cmt_limit_kept(m: LedgerModel, p: CmtPayloadModel)
    requires
        m.wf(),
        p.wf(),
        p.amount >= 0,
        !cmt_fatal(m, p),
        forall|i: int|
            0 <= i < m.balances.len() ==> (#[trigger] m.balances[i]).amount >= m.balances[i].limit,
    ensures
        forall|i: int|
            0 <= i < cmt_step(m, p).ledger.balances.len() ==> (#[trigger] cmt_step(
                m,
                p,
            ).ledger.balances[i]).amount >= cmt_step(m, p).ledger.balances[i].limit,
{
    let bs2 = cmt_step(m, p).ledger.balances;
    assert forall|i: int| 0 <= i < bs2.len() implies (#[trigger] bs2[i]).amount >= bs2[i].limit by {
        assert(m.balances[i].amount >= m.balances[i].limit);
    }
}

/// A transfer that would overdraw the debited account is rejected with
/// reason `insufficient funds` and mutates no balance.
pub proof fn lemma_cmt_insufficient_rejected(m: LedgerModel, p: CmtPayloadModel)
    requires
        m.wf(),
        p.wf(),
        !has_cmt(m.cmts, p.id),
        valid_iban(p.from),
        p.from != p.to,
        valid_open_iban(p.from),
        has_balance(m.balances, p.from),
        balance_at(m.balances, p.from).token == p.token,
        balance_at(m.balances, p.from).amount - p.amount < balance_at(m.balances, p.from).limit,
    ensures
        cmt_step(m, p).cmt.reason == Option::Some("insufficient funds"@),
        cmt_step(m, p).ledger.balances == m.balances,
        cmt_step(m, p).b_from is None,
        cmt_step(m, p).b_to is None,
{
}

/// A transfer whose token does not match the debited account's stored
/// token is rejected with reason `invalid token` and mutates no balance.
pub proof fn lemma_cmt_token_gate(m: LedgerModel, p: CmtPayloadModel)
    requires
        m.wf(),
        p.wf(),
        !has_cmt(m.cmts, p.id),
        valid_iban(p.from),
        p.from != p.to,
        valid_open_iban(p.from),
        has_balance(m.balances, p.from),
        balance_at(m.balances, p.from).token != p.token,
    ensures
        cmt_step(m, p).cmt.reason == Option::Some("invalid token"@),
        cmt_step(m, p).ledger.balances == m.balances,
        cmt_step(m, p).b_from is None,
        cmt_step(m, p).b_to is None,
{
}

/// A transfer from an account to itself is rejected with the dedicated
/// reason and mutates no balance.
pub proof fn lemma_cmt_self_transfer(m: LedgerModel, p: CmtPayloadModel)
    requires
        m.wf(),
        p.wf(),
        !has_cmt(m.cmts, p.id),
        valid_iban(p.from),
        p.from == p.to,
    ensures
        cmt_step(m, p).cmt.reason == Option::Some("from and to can't be same for transfer"@),
        cmt_step(m, p).ledger.balances == m.balances,
        cmt_step(m, p).b_from is None,
        cmt_step(m, p).b_to is None,
{
}

// ---------------------------------------------------------------------------
// Event keys and emission counts
// ---------------------------------------------------------------------------
/// The account-creation outcome event is keyed by the hyphenated
/// command identifier.
pub proof fn lemma_cac_event_key(
    m: LedgerModel,
    vs: Seq<(String, FieldValue)>,
    fresh_iban: Seq<char>,
    fresh_token: Seq<char>,
)
    requires
        cac_well_shaped(vs),
    ensures
        cac_event(m, vs, fresh_iban, fresh_token).key == hyphenated(cac_id(vs)),
{
}

/// Transfer outcome events are keyed by the hyphenated command
/// identifier; every following event is a `balance_changed` keyed by the
/// IBAN it reports (its first field).
pub proof fn lemma_cmt_event_keys(m: LedgerModel, p: CmtPayloadModel)
    requires
        m.wf(),
        p.wf(),
    ensures
        ({
            let evs = cmt_events(m, p);
            &&& evs[0].key == hyphenated(p.id)
            &&& forall|i: int|
                1 <= i < evs.len() ==> (#[trigger] evs[i]).topic == "balance_changed"@
                    && evs[i].fields[0] == (FieldModel {
                    name: "iban"@,
                    value: ValueModel::Str(evs[i].key),
                })
        }),
{
    let evs = cmt_events(m, p);
    assert forall|i: int| 1 <= i < evs.len() implies (#[trigger] evs[i]).topic
        == "balance_changed"@ && evs[i].fields[0] == FieldModel {
        name: "iban"@,
        value: ValueModel::Str(evs[i].key),
    } by {
        let step = cmt_step(m, p);
        if step.b_from is Some && i == 1 {
        } else {
        }
    }
}

/// A transfer emits exactly one outcome event and one `balance_changed`
/// per mutated row — between zero and two; a replayed command emits the
/// outcome event alone.
pub proof fn lemma_cmt_emission_count(m: LedgerModel, p: CmtPayloadModel)
    requires
        m.wf(),
        p.wf(),
    ensures
        ({
            let step = cmt_step(m, p);
            let evs = cmt_events(m, p);
            &&& evs.len() == 1 + (if step.b_from is Some {
                1 as int
            } else {
                0 as int
            }) + (if step.b_to is Some {
                1 as int
            } else {
                0 as int
            })
            &&& 1 <= evs.len() <= 3
            &&& has_cmt(m.cmts, p.id) ==> evs.len() == 1
        }),
{
}

} // verus!
