use vstd::prelude::*;

use crate::ids::Uid;
use crate::iban::{valid_iban, valid_open_iban};
use crate::records::{Balance, BalanceModel, Cac, CacModel, Cmt, CmtModel, DEFAULT_LIMIT, opt_view};
use crate::payload::{CmtPayload, CmtPayloadModel, Fatal};

verus! {

// ---------------------------------------------------------------------------
// The ledger and its mathematical model
// ---------------------------------------------------------------------------
/// The command ledger: balances keyed by IBAN, and one row per observed
/// command identifier. The rows are what the relational store persists;
/// every operation below is one serializable transaction on them.
pub struct Ledger {
    pub balances: Vec<Balance>,
    pub cacs: Vec<Cac>,
    pub cmts: Vec<Cmt>,
}

/// Mathematical view of the ledger.
#[verifier::ext_equal]
pub ghost struct LedgerModel {
    pub balances: Seq<BalanceModel>,
    pub cacs: Seq<CacModel>,
    pub cmts: Seq<CmtModel>,
}

pub open spec fn bals_model(v: Seq<Balance>) -> Seq<BalanceModel> {
    v.map_values(|b: Balance| b@)
}

pub open spec fn cacs_model(v: Seq<Cac>) -> Seq<CacModel> {
    v.map_values(|c: Cac| c@)
}

pub open spec fn cmts_model(v: Seq<Cmt>) -> Seq<CmtModel> {
    v.map_values(|c: Cmt| c@)
}

impl View for Ledger {
    type V = LedgerModel;

    open spec fn view(&self) -> LedgerModel {
        LedgerModel {
            balances: bals_model(self.balances@),
            cacs: cacs_model(self.cacs@),
            cmts: cmts_model(self.cmts@),
        }
    }
}

/// No two balance rows share an IBAN.
pub open spec fn distinct_ibans(bs: Seq<BalanceModel>) -> bool {
    forall|i: int, j: int|
        0 <= i < bs.len() && 0 <= j < bs.len() && i != j ==> #[trigger] bs[i].iban != #[trigger] bs[j].iban
}

/// No two account-creation rows share a command identifier.
pub open spec fn distinct_cac_ids(cs: Seq<CacModel>) -> bool {
    forall|i: int, j: int|
        0 <= i < cs.len() && 0 <= j < cs.len() && i != j ==> #[trigger] cs[i].uuid != #[trigger] cs[j].uuid
}

/// No two money-transfer rows share a command identifier.
pub open spec fn distinct_cmt_ids(cs: Seq<CmtModel>) -> bool {
    forall|i: int, j: int|
        0 <= i < cs.len() && 0 <= j < cs.len() && i != j ==> #[trigger] cs[i].uuid != #[trigger] cs[j].uuid
}

impl LedgerModel {
    /// Row-level invariants of the store: keys are unique, every row is
    /// well formed.
    pub open spec fn wf(self) -> bool {
        &&& distinct_ibans(self.balances)
        &&& (forall|i: int| 0 <= i < self.balances.len() ==> (#[trigger] self.balances[i]).wf())
        &&& distinct_cac_ids(self.cacs)
        &&& (forall|i: int| 0 <= i < self.cacs.len() ==> (#[trigger] self.cacs[i]).wf())
        &&& distinct_cmt_ids(self.cmts)
        &&& (forall|i: int| 0 <= i < self.cmts.len() ==> (#[trigger] self.cmts[i]).wf())
    }
}

impl Ledger {
    /// An empty ledger: no balances, no recorded commands.
    pub fn new() -> (r: Ledger)
        ensures
            r@.balances.len() == 0,
            r@.cacs.len() == 0,
            r@.cmts.len() == 0,
            r@.wf(),
    {
        let r = Ledger { balances: Vec::new(), cacs: Vec::new(), cmts: Vec::new() };
        proof {
            assert(r@.balances =~= Seq::<BalanceModel>::empty());
            assert(r@.cacs =~= Seq::<CacModel>::empty());
            assert(r@.cmts =~= Seq::<CmtModel>::empty());
        }
        r
    }
}

// ---------------------------------------------------------------------------
// Lookup
// ---------------------------------------------------------------------------
pub open spec fn has_balance(bs: Seq<BalanceModel>, ib: Seq<char>) -> bool {
    exists|i: int| 0 <= i < bs.len() && (#[trigger] bs[i]).iban == ib
}

/// The balance row with the given IBAN; meaningful under `distinct_ibans`.
pub open spec fn balance_at(bs: Seq<BalanceModel>, ib: Seq<char>) -> BalanceModel {
    bs[choose|i: int| 0 <= i < bs.len() && (#[trigger] bs[i]).iban == ib]
}

pub open spec fn has_cac(cs: Seq<CacModel>, id: Seq<u8>) -> bool {
    exists|i: int| 0 <= i < cs.len() && (#[trigger] cs[i]).uuid == id
}

pub open spec fn cac_at(cs: Seq<CacModel>, id: Seq<u8>) -> CacModel {
    cs[choose|i: int| 0 <= i < cs.len() && (#[trigger] cs[i]).uuid == id]
}

pub open spec fn has_cmt(cs: Seq<CmtModel>, id: Seq<u8>) -> bool {
    exists|i: int| 0 <= i < cs.len() && (#[trigger] cs[i]).uuid == id
}

pub open spec fn cmt_at(cs: Seq<CmtModel>, id: Seq<u8>) -> CmtModel {
    cs[choose|i: int| 0 <= i < cs.len() && (#[trigger] cs[i]).uuid == id]
}

/// Under unique IBANs, a row that matches is the row the lookup yields.
pub proof fn lemma_balance_at(bs: Seq<BalanceModel>, i: int)
    requires
        distinct_ibans(bs),
        0 <= i < bs.len(),
    ensures
        has_balance(bs, bs[i].iban),
        balance_at(bs, bs[i].iban) == bs[i],
{
    let ib = bs[i].iban;
    assert(has_balance(bs, ib));
    let j = choose|j: int| 0 <= j < bs.len() && (#[trigger] bs[j]).iban == ib;
    assert(j == i);
}

pub proof fn lemma_cac_at(cs: Seq<CacModel>, i: int)
    requires
        distinct_cac_ids(cs),
        0 <= i < cs.len(),
    ensures
        has_cac(cs, cs[i].uuid),
        cac_at(cs, cs[i].uuid) == cs[i],
{
    let id = cs[i].uuid;
    assert(has_cac(cs, id));
    let j = choose|j: int| 0 <= j < cs.len() && (#[trigger] cs[j]).uuid == id;
    assert(j == i);
}

pub proof fn lemma_cmt_at(cs: Seq<CmtModel>, i: int)
    requires
        distinct_cmt_ids(cs),
        0 <= i < cs.len(),
    ensures
        has_cmt(cs, cs[i].uuid),
        cmt_at(cs, cs[i].uuid) == cs[i],
{
    let id = cs[i].uuid;
    assert(has_cmt(cs, id));
    let j = choose|j: int| 0 <= j < cs.len() && (#[trigger] cs[j]).uuid == id;
    assert(j == i);
}

/// Index of the balance row with the given IBAN, if any.
fn find_balance(v: &Vec<Balance>, ib: &String) -> (r: Option<usize>)
    ensures
        match r {
            Option::Some(i) => i < v@.len() && v@[i as int]@.iban == ib@,
            Option::None => !has_balance(bals_model(v@), ib@),
        },
{
    let n = v.len();
    let mut i: usize = 0;
    while i < n
        invariant
            0 <= i <= n,
            n == v@.len(),
            forall|j: int| 0 <= j < i ==> (#[trigger] v@[j])@.iban != ib@,
        decreases n - i,
    {
        if v[i].iban == *ib {
            return Option::Some(i);
        }
        i += 1;
    }
    proof {
        assert forall|j: int| 0 <= j < bals_model(v@).len() implies (#[trigger] bals_model(v@)[j]).iban
            != ib@ by {
            assert(bals_model(v@)[j] == v@[j]@);
        }
    }
    Option::None
}

/// Index of the account-creation row with the given identifier, if any.
fn find_cac(v: &Vec<Cac>, id: &Uid) -> (r: Option<usize>)
    ensures
        match r {
            Option::Some(i) => i < v@.len() && v@[i as int]@.uuid == id@,
            Option::None => !has_cac(cacs_model(v@), id@),
        },
{
    let n = v.len();
    let mut i: usize = 0;
    while i < n
        invariant
            0 <= i <= n,
            n == v@.len(),
            forall|j: int| 0 <= j < i ==> (#[trigger] v@[j])@.uuid != id@,
        decreases n - i,
    {
        if v[i].uuid.eq_uid(id) {
            return Option::Some(i);
        }
        i += 1;
    }
    proof {
        assert forall|j: int| 0 <= j < cacs_model(v@).len() implies (#[trigger] cacs_model(v@)[j]).uuid
            != id@ by {
            assert(cacs_model(v@)[j] == v@[j]@);
        }
    }
    Option::None
}

/// Index of the money-transfer row with the given identifier, if any.
fn find_cmt(v: &Vec<Cmt>, id: &Uid) -> (r: Option<usize>)
    ensures
        match r {
            Option::Some(i) => i < v@.len() && v@[i as int]@.uuid == id@,
            Option::None => !has_cmt(cmts_model(v@), id@),
        },
{
    let n = v.len();
    let mut i: usize = 0;
    while i < n
        invariant
            0 <= i <= n,
            n == v@.len(),
            forall|j: int| 0 <= j < i ==> (#[trigger] v@[j])@.uuid != id@,
        decreases n - i,
    {
        if v[i].uuid.eq_uid(id) {
            return Option::Some(i);
        }
        i += 1;
    }
    proof {
        assert forall|j: int| 0 <= j < cmts_model(v@).len() implies (#[trigger] cmts_model(v@)[j]).uuid
            != id@ by {
            assert(cmts_model(v@)[j] == v@[j]@);
        }
    }
    Option::None
}

// ---------------------------------------------------------------------------
// Account creation
// ---------------------------------------------------------------------------
/// Outcome of one account-creation transaction.
#[verifier::ext_equal]
pub ghost struct CacStep {
    pub ledger: LedgerModel,
    pub cac: CacModel,
}

/// The account-creation transaction. For an already-seen identifier the
/// stored row is returned and nothing changes. Otherwise, if the freshly
/// generated IBAN collides with an existing balance, a failed row is
/// written and no balance is created; else a zero balance with the
/// default overdraft limit is created and a successful row written.
pub open spec fn cac_step(
    m: LedgerModel,
    id: Seq<u8>,
    account_type: Seq<char>,
    fresh_iban: Seq<char>,
    fresh_token: Seq<char>,
) -> CacStep {
    if has_cac(m.cacs, id) {
        CacStep { ledger: m, cac: cac_at(m.cacs, id) }
    } else if has_balance(m.balances, fresh_iban) {
        let row = CacModel {
            uuid: id,
            iban: Option::None,
            token: Option::None,
            account_type: Option::Some(account_type),
            reason: Option::Some("generated iban already exists, try again"@),
        };
        CacStep {
            ledger: LedgerModel { cacs: m.cacs.push(row), ..m },
            cac: row,
        }
    } else {
        let b = BalanceModel {
            iban: fresh_iban,
            token: fresh_token,
            amount: 0,
            account_type: account_type,
            limit: DEFAULT_LIMIT as int,
        };
        let row = CacModel {
            uuid: id,
            iban: Option::Some(fresh_iban),
            token: Option::Some(fresh_token),
            account_type: Option::Some(account_type),
            reason: Option::None,
        };
        CacStep {
            ledger: LedgerModel {
                balances: m.balances.push(b),
                cacs: m.cacs.push(row),
                cmts: m.cmts,
            },
            cac: row,
        }
    }
}

/// The account-creation transaction, executed on the ledger.
///
/// `fresh_iban` and `fresh_token` are the candidate identifiers produced
/// by the caller's generator; they are consulted only when the command
/// identifier has not been seen before.
pub fn get_cac(
    ledger: &mut Ledger,
    id: &Uid,
    account_type: &str,
    fresh_iban: String,
    fresh_token: String,
) -> (r: Cac)
    requires
        old(ledger)@.wf(),
        id.wf(),
    ensures
        final(ledger)@ == cac_step(old(ledger)@, id@, account_type@, fresh_iban@, fresh_token@).ledger,
        r@ == cac_step(old(ledger)@, id@, account_type@, fresh_iban@, fresh_token@).cac,
        final(ledger)@.wf(),
{
    let ghost m = ledger@;
    match find_cac(&ledger.cacs, id) {
        Option::Some(i) => {
            proof {
                lemma_cac_at(m.cacs, i as int);
                assert(cacs_model(ledger.cacs@)[i as int] == ledger.cacs@[i as int]@);
            }
            ledger.cacs[i].clone()
        },
        Option::None => {
            let collides = match find_balance(&ledger.balances, &fresh_iban) {
                Option::Some(i) => {
                    proof {
                        lemma_balance_at(m.balances, i as int);
                        assert(bals_model(ledger.balances@)[i as int] == ledger.balances@[i as int]@);
                    }
                    true
                },
                Option::None => false,
            };
            if collides {
                let row = Cac {
                    uuid: id.clone(),
                    iban: Option::None,
                    token: Option::None,
                    account_type: Option::Some(account_type.to_owned()),
                    reason: Option::Some("generated iban already exists, try again".to_owned()),
                };
                let r = row.clone();
                ledger.cacs.push(row);
                proof {
                    let step = cac_step(m, id@, account_type@, fresh_iban@, fresh_token@);
                    assert(ledger@.cacs =~= step.ledger.cacs);
                    assert(ledger@ =~= step.ledger);
                    assert(step.ledger.wf());
                }
                r
            } else {
                let b = Balance {
                    iban: fresh_iban.clone(),
                    token: fresh_token.clone(),
                    amount: 0,
                    account_type: account_type.to_owned(),
                    limit: DEFAULT_LIMIT,
                };
                let row = Cac {
                    uuid: id.clone(),
                    iban: Option::Some(fresh_iban),
                    token: Option::Some(fresh_token),
                    account_type: Option::Some(account_type.to_owned()),
                    reason: Option::None,
                };
                let r = row.clone();
                ledger.balances.push(b);
                ledger.cacs.push(row);
                proof {
                    let step = cac_step(m, id@, account_type@, fresh_iban@, fresh_token@);
                    assert(ledger@.balances =~= step.ledger.balances);
                    assert(ledger@.cacs =~= step.ledger.cacs);
                    assert(ledger@ =~= step.ledger);
                    assert forall|x: int| 0 <= x < step.ledger.balances.len() implies (
                    #[trigger] step.ledger.balances[x]).wf() by {}
                    assert(step.ledger.wf());
                }
                r
            }
        },
    }
}

// ---------------------------------------------------------------------------
// Money transfer
// ---------------------------------------------------------------------------
/// View of an optionally returned balance row.
pub open spec fn opt_bal_view(o: Option<Balance>) -> Option<BalanceModel> {
    match o {
        Option::Some(b) => Option::Some(b@),
        Option::None => Option::None,
    }
}

/// All balance rows, with the amount of the row keyed `ib` (if any)
/// replaced by `new_amount`.
pub open spec fn update_amount(bs: Seq<BalanceModel>, ib: Seq<char>, new_amount: int) -> Seq<
    BalanceModel,
> {
    bs.map(
        |i: int, b: BalanceModel|
            if b.iban == ib {
                BalanceModel { amount: new_amount, ..b }
            } else {
                b
            },
    )
}

/// Under unique IBANs, updating by key is updating at the key's index.
pub proof fn lemma_update_amount_index(bs: Seq<BalanceModel>, i: int, a: int)
    requires
        distinct_ibans(bs),
        0 <= i < bs.len(),
    ensures
        update_amount(bs, bs[i].iban, a) == bs.update(i, BalanceModel { amount: a, ..bs[i] }),
{
    let ib = bs[i].iban;
    let lhs = update_amount(bs, ib, a);
    let rhs = bs.update(i, BalanceModel { amount: a, ..bs[i] });
    assert forall|j: int| 0 <= j < bs.len() implies lhs[j] == rhs[j] by {
        if j != i {
            assert(bs[j].iban != ib);
        }
    }
    assert(lhs =~= rhs);
}

/// The reason a fresh money-transfer command is rejected, if any.
/// `None` means the transfer is accepted (which includes the case of an
/// external `from` with no local debit).
pub open spec fn cmt_reason(bs: Seq<BalanceModel>, p: CmtPayloadModel) -> Option<Seq<char>> {
    if !valid_iban(p.from) {
        Option::Some("from is invalid"@)
    } else if p.from == p.to {
        Option::Some("from and to can't be same for transfer"@)
    } else if valid_open_iban(p.from) && has_balance(bs, p.from) {
        let b = balance_at(bs, p.from);
        if b.token != p.token {
            Option::Some("invalid token"@)
        } else if b.amount - p.amount < b.limit {
            Option::Some("insufficient funds"@)
        } else {
            Option::None
        }
    } else {
        Option::None
    }
}

/// The command debits a local balance: `from` is managed, has a row, and
/// the token and overdraft checks pass.
pub open spec fn from_debits(bs: Seq<BalanceModel>, p: CmtPayloadModel) -> bool {
    &&& valid_iban(p.from)
    &&& p.from != p.to
    &&& valid_open_iban(p.from)
    &&& has_balance(bs, p.from)
    &&& balance_at(bs, p.from).token == p.token
    &&& balance_at(bs, p.from).amount - p.amount >= balance_at(bs, p.from).limit
}

/// The command credits a local balance: it was not rejected, and `to` is
/// managed and has a row. An unmanaged or unknown `to` is skipped silently.
pub open spec fn to_credits(bs: Seq<BalanceModel>, p: CmtPayloadModel) -> bool {
    &&& cmt_reason(bs, p) is None
    &&& valid_open_iban(p.to)
    &&& has_balance(bs, p.to)
}

/// The debited amount would not fit the signed 64-bit balance column.
pub open spec fn debit_overflow(bs: Seq<BalanceModel>, p: CmtPayloadModel) -> bool {
    from_debits(bs, p) && balance_at(bs, p.from).amount - p.amount > i64::MAX
}

/// The credited amount would not fit the signed 64-bit balance column.
pub open spec fn credit_overflow(bs: Seq<BalanceModel>, p: CmtPayloadModel) -> bool {
    to_credits(bs, p) && !(i64::MIN <= balance_at(bs, p.to).amount + p.amount <= i64::MAX)
}

/// A fresh command whose mutation cannot be stored: the transaction
/// aborts, nothing is written, and the worker treats it as fatal.
pub open spec fn cmt_fatal(m: LedgerModel, p: CmtPayloadModel) -> bool {
    &&& !has_cmt(m.cmts, p.id)
    &&& (debit_overflow(m.balances, p) || credit_overflow(m.balances, p))
}

/// Outcome of one money-transfer transaction.
#[verifier::ext_equal]
pub ghost struct CmtStep {
    pub ledger: LedgerModel,
    pub cmt: CmtModel,
    pub b_from: Option<BalanceModel>,
    pub b_to: Option<BalanceModel>,
}

/// The money-transfer transaction. For an already-seen identifier the
/// stored row is returned and nothing changes — in particular no balance
/// rows are reported. Otherwise the command is validated, the debit and
/// credit are applied where they are owed, and a row with the computed
/// reason is written; the mutated rows are reported back.
pub open spec fn cmt_step(m: LedgerModel, p: CmtPayloadModel) -> CmtStep {
    if has_cmt(m.cmts, p.id) {
        CmtStep { ledger: m, cmt: cmt_at(m.cmts, p.id), b_from: Option::None, b_to: Option::None }
    } else {
        let reason = cmt_reason(m.balances, p);
        let new_from = balance_at(m.balances, p.from).amount - p.amount;
        let new_to = balance_at(m.balances, p.to).amount + p.amount;
        let b_from = if from_debits(m.balances, p) {
            Option::Some(BalanceModel { amount: new_from, ..balance_at(m.balances, p.from) })
        } else {
            Option::None
        };
        let bs1 = if from_debits(m.balances, p) {
            update_amount(m.balances, p.from, new_from)
        } else {
            m.balances
        };
        let b_to = if to_credits(m.balances, p) {
            Option::Some(BalanceModel { amount: new_to, ..balance_at(m.balances, p.to) })
        } else {
            Option::None
        };
        let bs2 = if to_credits(m.balances, p) {
            update_amount(bs1, p.to, new_to)
        } else {
            bs1
        };
        let row = CmtModel { uuid: p.id, reason };
        CmtStep {
            ledger: LedgerModel { balances: bs2, cacs: m.cacs, cmts: m.cmts.push(row) },
            cmt: row,
            b_from,
            b_to,
        }
    }
}

/// The money-transfer transaction, executed on the ledger.
///
/// An `Err` reports a balance that cannot be stored; the transaction is
/// then aborted and the ledger left untouched.
pub fn get_cmt(ledger: &mut Ledger, p: &CmtPayload) -> (r: Result<
    (Cmt, Option<Balance>, Option<Balance>),
    Fatal,
>)
    requires
        old(ledger)@.wf(),
        p.id.wf(),
    ensures
        final(ledger)@.wf(),
        r is Err <==> cmt_fatal(old(ledger)@, p@),
        r matches Err(e) ==> e == Fatal::AmountOutOfRange && final(ledger)@ == old(ledger)@,
        r matches Ok(t) ==> {
            let step = cmt_step(old(ledger)@, p@);
            &&& final(ledger)@ == step.ledger
            &&& t.0@ == step.cmt
            &&& opt_bal_view(t.1) == step.b_from
            &&& opt_bal_view(t.2) == step.b_to
        },
{
    let ghost m = ledger@;
    match find_cmt(&ledger.cmts, &p.id) {
        Option::Some(i) => {
            proof {
                lemma_cmt_at(m.cmts, i as int);
                assert(cmts_model(ledger.cmts@)[i as int] == ledger.cmts@[i as int]@);
            }
            return Result::Ok((ledger.cmts[i].clone(), Option::None, Option::None));
        },
        Option::None => {},
    }
    // The command is fresh: validate it and plan the mutations, touching
    // nothing until the whole transaction is known to go through.
    let mut reason: Option<String> = Option::None;
    let mut debit_plan: Option<(usize, i64)> = Option::None;
    if !crate::iban::check_iban(p.from.as_str()) {
        reason = Option::Some("from is invalid".to_owned());
    } else if p.from == p.to {
        reason = Option::Some("from and to can't be same for transfer".to_owned());
    } else if crate::iban::check_open_iban(p.from.as_str()) {
        match find_balance(&ledger.balances, &p.from) {
            Option::Some(i) => {
                proof {
                    lemma_balance_at(m.balances, i as int);
                    assert(bals_model(ledger.balances@)[i as int] == ledger.balances@[i as int]@);
                }
                if ledger.balances[i].token != p.token {
                    reason = Option::Some("invalid token".to_owned());
                } else {
                    let new_from: i128 = ledger.balances[i].amount as i128 - p.amount as i128;
                    if new_from < ledger.balances[i].limit as i128 {
                        reason = Option::Some("insufficient funds".to_owned());
                    } else if new_from > i64::MAX as i128 {
                        return Result::Err(Fatal::AmountOutOfRange);
                    } else {
                        debit_plan = Option::Some((i, new_from as i64));
                    }
                }
            },
            Option::None => {
                // A managed IBAN without a row: no local debit is owed.
            },
        }
    } else {
        // An external `from`: no local debit.
    }
    let mut credit_plan: Option<(usize, i64)> = Option::None;
    if reason.is_none() && crate::iban::check_open_iban(p.to.as_str()) {
        match find_balance(&ledger.balances, &p.to) {
            Option::Some(j) => {
                proof {
                    lemma_balance_at(m.balances, j as int);
                    assert(bals_model(ledger.balances@)[j as int] == ledger.balances@[j as int]@);
                }
                let new_to: i128 = ledger.balances[j].amount as i128 + p.amount as i128;
                if new_to > i64::MAX as i128 || new_to < i64::MIN as i128 {
                    return Result::Err(Fatal::AmountOutOfRange);
                }
                credit_plan = Option::Some((j, new_to as i64));
            },
            Option::None => {},
        }
    }
    proof {
        assert(opt_view(reason) == cmt_reason(m.balances, p@));
        assert(!cmt_fatal(m, p@));
    }
    // Commit: apply the planned mutations and write the row.
    let ghost step = cmt_step(m, p@);
    let mut b_from: Option<Balance> = Option::None;
    let mut b_to: Option<Balance> = Option::None;
    match debit_plan {
        Option::Some((i, nf)) => {
            proof {
                lemma_update_amount_index(m.balances, i as int, nf as int);
            }
            let bref = &mut ledger.balances[i];
            bref.amount = nf;
            proof {
                assert(bals_model(ledger.balances@) =~= m.balances.update(
                    i as int,
                    BalanceModel { amount: nf as int, ..m.balances[i as int] },
                ));
            }
            b_from = Option::Some(ledger.balances[i].clone());
        },
        Option::None => {},
    }
    let ghost bs1 = if from_debits(m.balances, p@) {
        update_amount(m.balances, p@.from, balance_at(m.balances, p@.from).amount - p@.amount)
    } else {
        m.balances
    };
    proof {
        assert(bals_model(ledger.balances@) == bs1);
        assert(distinct_ibans(bs1) && bs1.len() == m.balances.len());
        assert(forall|k: int| 0 <= k < bs1.len() ==> (#[trigger] bs1[k]).iban == m.balances[k].iban
            && bs1[k].wf());
    }
    match credit_plan {
        Option::Some((j, nt)) => {
            proof {
                assert(bs1[j as int].iban == m.balances[j as int].iban);
                lemma_update_amount_index(bs1, j as int, nt as int);
                assert(bs1[j as int] == m.balances[j as int]);
            }
            let bref = &mut ledger.balances[j];
            bref.amount = nt;
            proof {
                assert(bals_model(ledger.balances@) =~= bs1.update(
                    j as int,
                    BalanceModel { amount: nt as int, ..bs1[j as int] },
                ));
            }
            b_to = Option::Some(ledger.balances[j].clone());
        },
        Option::None => {},
    }
    let row = Cmt { uuid: p.id.clone(), reason };
    let r0 = row.clone();
    ledger.cmts.push(row);
    proof {
        assert(ledger@.cmts =~= step.ledger.cmts);
        assert(ledger@.balances =~= step.ledger.balances);
        assert(ledger@ =~= step.ledger);
        assert(opt_bal_view(b_from) == step.b_from);
        assert(opt_bal_view(b_to) == step.b_to);
        assert forall|x: int| 0 <= x < step.ledger.balances.len() implies (
        #[trigger] step.ledger.balances[x]).wf() by {}
        assert(step.ledger.wf());
    }
    Result::Ok((r0, b_from, b_to))
}

} // verus!
