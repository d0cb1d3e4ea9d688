use vstd::prelude::*;

use crate::ids::Uid;

verus! {

/// Overdraft floor given to every newly created balance.
pub const DEFAULT_LIMIT: i64 = -50000;

/// View of an `Option<String>` as an optional character sequence.
pub open spec fn opt_view(o: Option<String>) -> Option<Seq<char>> {
    match o {
        Option::Some(s) => Option::Some(s@),
        Option::None => Option::None,
    }
}

/// Mathematical view of one balance row.
#[verifier::ext_equal]
pub ghost struct BalanceModel {
    pub iban: Seq<char>,
    pub token: Seq<char>,
    pub amount: int,
    pub account_type: Seq<char>,
    pub limit: int,
}

impl BalanceModel {
    /// The amounts a balance row can hold are those of the signed
    /// 64-bit column that stores them.
    pub open spec fn wf(self) -> bool {
        &&& i64::MIN <= self.amount <= i64::MAX
        &&& i64::MIN <= self.limit <= i64::MAX
    }
}

/// A balance row: one managed account, keyed by its IBAN.
#[derive(PartialEq)]
pub struct Balance {
    pub iban: String,
    pub token: String,
    pub amount: i64,
    pub account_type: String,
    pub limit: i64,
}

impl View for Balance {
    type V = BalanceModel;

    open spec fn view(&self) -> BalanceModel {
        BalanceModel {
            iban: self.iban@,
            token: self.token@,
            amount: self.amount as int,
            account_type: self.account_type@,
            limit: self.limit as int,
        }
    }
}

impl Clone for Balance {
    fn clone(&self) -> (r: Self)
        ensures
            r == *self,
    {
        Balance {
            iban: self.iban.clone(),
            token: self.token.clone(),
            amount: self.amount,
            account_type: self.account_type.clone(),
            limit: self.limit,
        }
    }
}

/// Mathematical view of one account-creation row.
#[verifier::ext_equal]
pub ghost struct CacModel {
    pub uuid: Seq<u8>,
    pub iban: Option<Seq<char>>,
    pub token: Option<Seq<char>>,
    pub account_type: Option<Seq<char>>,
    pub reason: Option<Seq<char>>,
}

impl CacModel {
    /// A row records either a success, with the issued IBAN and token,
    /// or a failure, with a reason.
    pub open spec fn wf(self) -> bool {
        &&& self.uuid.len() == 16
        &&& self.reason is None ==> self.iban is Some && self.token is Some
    }
}

/// An account-creation row, keyed by the command identifier. Written once
/// on first observation of the command, immutable thereafter.
#[derive(PartialEq)]
pub struct Cac {
    pub uuid: Uid,
    pub iban: Option<String>,
    pub token: Option<String>,
    pub account_type: Option<String>,
    pub reason: Option<String>,
}

impl View for Cac {
    type V = CacModel;

    open spec fn view(&self) -> CacModel {
        CacModel {
            uuid: self.uuid@,
            iban: opt_view(self.iban),
            token: opt_view(self.token),
            account_type: opt_view(self.account_type),
            reason: opt_view(self.reason),
        }
    }
}

/// Copy of an optional string, equal to its source.
pub fn clone_opt_string(o: &Option<String>) -> (r: Option<String>)
    ensures
        r == *o,
{
    match o {
        Option::Some(s) => Option::Some(s.clone()),
        Option::None => Option::None,
    }
}

impl Clone for Cac {
    fn clone(&self) -> (r: Self)
        ensures
            r@ == self@,
    {
        Cac {
            uuid: self.uuid.clone(),
            iban: clone_opt_string(&self.iban),
            token: clone_opt_string(&self.token),
            account_type: clone_opt_string(&self.account_type),
            reason: clone_opt_string(&self.reason),
        }
    }
}

/// Mathematical view of one money-transfer row.
#[verifier::ext_equal]
pub ghost struct CmtModel {
    pub uuid: Seq<u8>,
    pub reason: Option<Seq<char>>,
}

impl CmtModel {
    pub open spec fn wf(self) -> bool {
        self.uuid.len() == 16
    }
}

/// A money-transfer row, keyed by the command identifier. Written once
/// on first observation of the command, immutable thereafter.
#[derive(PartialEq)]
pub struct Cmt {
    pub uuid: Uid,
    pub reason: Option<String>,
}

impl View for Cmt {
    type V = CmtModel;

    open spec fn view(&self) -> CmtModel {
        CmtModel { uuid: self.uuid@, reason: opt_view(self.reason) }
    }
}

impl Clone for Cmt {
    fn clone(&self) -> (r: Self)
        ensures
            r@ == self@,
    {
        Cmt { uuid: self.uuid.clone(), reason: clone_opt_string(&self.reason) }
    }
}

} // verus!
