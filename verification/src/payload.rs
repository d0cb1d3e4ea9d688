use vstd::prelude::*;

use crate::ids::Uid;

verus! {

/// Fatal conditions of the command pipeline. Each aborts the worker that
/// hits it: a reason is never recorded and no outcome event is owed.
#[derive(Debug, PartialEq, Eq, Structural)]
pub enum Fatal {
    /// A payload field was absent or not of the declared kind: schema
    /// drift, not a data error.
    BadShape,
    /// A balance mutation or an event amount does not fit the signed
    /// 64-bit range that stores it.
    AmountOutOfRange,
}

/// Mathematical view of one typed payload or event field.
#[verifier::ext_equal]
pub ghost struct FieldModel {
    pub name: Seq<char>,
    pub value: ValueModel,
}

/// Mathematical view of a typed field value.
#[verifier::ext_equal]
pub ghost enum ValueModel {
    Str(Seq<char>),
    Long(int),
    Fixed(Seq<u8>),
    Enum(int, Seq<char>),
}

/// A typed field value, as the wire decoder delivers it: exactly the
/// shapes the two command payloads and the outcome events use.
#[derive(PartialEq)]
pub enum FieldValue {
    Str(String),
    Long(i64),
    Fixed(Vec<u8>),
    Enum(i32, String),
}

impl View for FieldValue {
    type V = ValueModel;

    open spec fn view(&self) -> ValueModel {
        match self {
            FieldValue::Str(s) => ValueModel::Str(s@),
            FieldValue::Long(v) => ValueModel::Long(*v as int),
            FieldValue::Fixed(b) => ValueModel::Fixed(b@),
            FieldValue::Enum(i, s) => ValueModel::Enum(*i as int, s@),
        }
    }
}

/// Copy of a byte vector, equal to its source element for element.
pub fn clone_bytes(v: &Vec<u8>) -> (r: Vec<u8>)
    ensures
        r@ == v@,
{
    let mut bs: Vec<u8> = Vec::new();
    let mut i: usize = 0;
    while i < v.len()
        invariant
            0 <= i <= v@.len(),
            bs@ == v@.subrange(0, i as int),
        decreases v@.len() - i,
    {
        bs.push(v[i]);
        i += 1;
    }
    proof {
        assert(bs@ =~= v@);
    }
    bs
}

impl Clone for FieldValue {
    fn clone(&self) -> (r: Self)
        ensures
            r@ == self@,
    {
        match self {
            FieldValue::Str(s) => FieldValue::Str(s.clone()),
            FieldValue::Long(v) => FieldValue::Long(*v),
            FieldValue::Fixed(b) => FieldValue::Fixed(clone_bytes(b)),
            FieldValue::Enum(i, s) => FieldValue::Enum(*i, s.clone()),
        }
    }
}

/// View of a whole field list as delivered to a handler.
pub open spec fn fields_view(vs: Seq<(String, FieldValue)>) -> Seq<FieldModel> {
    vs.map_values(|t: (String, FieldValue)| FieldModel { name: t.0@, value: t.1@ })
}

/// Shape of an account-creation payload: `[id: Fixed16, a_type: Enum]`.
/// Field positions are contractual; names are not inspected.
pub open spec fn cac_well_shaped(vs: Seq<(String, FieldValue)>) -> bool {
    &&& vs.len() >= 2
    &&& vs[0].1@ matches ValueModel::Fixed(b) && b.len() == 16
    &&& vs[1].1@ is Enum
}

/// The command identifier of a well-shaped account-creation payload.
pub open spec fn cac_id(vs: Seq<(String, FieldValue)>) -> Seq<u8>
    recommends
        cac_well_shaped(vs),
{
    vs[0].1@->Fixed_0
}

/// The ordinal of the requested account type.
pub open spec fn cac_type_index(vs: Seq<(String, FieldValue)>) -> int
    recommends
        cac_well_shaped(vs),
{
    vs[1].1@->Enum_0
}

/// The symbolic name of the requested account type.
pub open spec fn cac_type_label(vs: Seq<(String, FieldValue)>) -> Seq<char>
    recommends
        cac_well_shaped(vs),
{
    vs[1].1@->Enum_1
}

/// Typed account-creation payload: the identifier and the requested
/// account type, the latter with both its ordinal and its name.
pub struct CacPayload {
    pub id: Uid,
    pub type_index: i32,
    pub type_label: String,
}

/// Extracts the typed account-creation payload, or reports schema drift.
pub fn decode_cac(vs: &Vec<(String, FieldValue)>) -> (r: Result<CacPayload, Fatal>)
    ensures
        r is Ok <==> cac_well_shaped(vs@),
        r matches Ok(p) ==> {
            &&& p.id@ == cac_id(vs@)
            &&& p.id.wf()
            &&& p.type_index as int == cac_type_index(vs@)
            &&& p.type_label@ == cac_type_label(vs@)
        },
        r matches Err(e) ==> e == Fatal::BadShape,
{
    if vs.len() < 2 {
        return Result::Err(Fatal::BadShape);
    }
    let id = match &vs[0].1 {
        FieldValue::Fixed(b) => {
            if b.len() != 16 {
                return Result::Err(Fatal::BadShape);
            }
            Uid { bytes: clone_bytes(b) }
        },
        _ => {
            return Result::Err(Fatal::BadShape);
        },
    };
    let (type_index, type_label) = match &vs[1].1 {
        FieldValue::Enum(i, s) => (*i, s.clone()),
        _ => {
            return Result::Err(Fatal::BadShape);
        },
    };
    Result::Ok(CacPayload { id, type_index, type_label })
}

/// Shape of a money-transfer payload:
/// `[id: Fixed16, token: String, amount: Long, from: String, to: String, description: String]`.
pub open spec fn cmt_well_shaped(vs: Seq<(String, FieldValue)>) -> bool {
    &&& vs.len() >= 6
    &&& vs[0].1@ matches ValueModel::Fixed(b) && b.len() == 16
    &&& vs[1].1@ is Str
    &&& vs[2].1@ is Long
    &&& vs[3].1@ is Str
    &&& vs[4].1@ is Str
    &&& vs[5].1@ is Str
}

/// Mathematical view of a typed money-transfer payload.
#[verifier::ext_equal]
pub ghost struct CmtPayloadModel {
    pub id: Seq<u8>,
    pub token: Seq<char>,
    pub amount: int,
    pub from: Seq<char>,
    pub to: Seq<char>,
    pub description: Seq<char>,
}

impl CmtPayloadModel {
    /// What the wire format forces: a 16-byte identifier and an amount
    /// from the signed 64-bit `Long` field.
    pub open spec fn wf(self) -> bool {
        &&& self.id.len() == 16
        &&& i64::MIN <= self.amount <= i64::MAX
    }
}

/// The typed payload of a well-shaped money-transfer command.
pub open spec fn cmt_payload_of(vs: Seq<(String, FieldValue)>) -> CmtPayloadModel
    recommends
        cmt_well_shaped(vs),
{
    CmtPayloadModel {
        id: vs[0].1@->Fixed_0,
        token: vs[1].1@->Str_0,
        amount: vs[2].1@->Long_0,
        from: vs[3].1@->Str_0,
        to: vs[4].1@->Str_0,
        description: vs[5].1@->Str_0,
    }
}

/// Typed money-transfer payload.
pub struct CmtPayload {
    pub id: Uid,
    pub token: String,
    pub amount: i64,
    pub from: String,
    pub to: String,
    pub description: String,
}

impl View for CmtPayload {
    type V = CmtPayloadModel;

    open spec fn view(&self) -> CmtPayloadModel {
        CmtPayloadModel {
            id: self.id@,
            token: self.token@,
            amount: self.amount as int,
            from: self.from@,
            to: self.to@,
            description: self.description@,
        }
    }
}

/// Extracts the typed money-transfer payload, or reports schema drift.
pub fn decode_cmt(vs: &Vec<(String, FieldValue)>) -> (r: Result<CmtPayload, Fatal>)
    ensures
        r is Ok <==> cmt_well_shaped(vs@),
        r matches Ok(p) ==> p@ == cmt_payload_of(vs@) && p.id.wf(),
        r matches Err(e) ==> e == Fatal::BadShape,
{
    if vs.len() < 6 {
        return Result::Err(Fatal::BadShape);
    }
    let id = match &vs[0].1 {
        FieldValue::Fixed(b) => {
            if b.len() != 16 {
                return Result::Err(Fatal::BadShape);
            }
            Uid { bytes: clone_bytes(b) }
        },
        _ => {
            return Result::Err(Fatal::BadShape);
        },
    };
    let token = match &vs[1].1 {
        FieldValue::Str(s) => s.clone(),
        _ => {
            return Result::Err(Fatal::BadShape);
        },
    };
    let amount = match &vs[2].1 {
        FieldValue::Long(v) => *v,
        _ => {
            return Result::Err(Fatal::BadShape);
        },
    };
    let from = match &vs[3].1 {
        FieldValue::Str(s) => s.clone(),
        _ => {
            return Result::Err(Fatal::BadShape);
        },
    };
    let to = match &vs[4].1 {
        FieldValue::Str(s) => s.clone(),
        _ => {
            return Result::Err(Fatal::BadShape);
        },
    };
    let description = match &vs[5].1 {
        FieldValue::Str(s) => s.clone(),
        _ => {
            return Result::Err(Fatal::BadShape);
        },
    };
    let p = CmtPayload { id, token, amount, from, to, description };
    proof {
        assert(p@ =~= cmt_payload_of(vs@));
    }
    Result::Ok(p)
}

} // verus!
