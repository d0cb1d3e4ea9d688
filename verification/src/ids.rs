use vstd::prelude::*;

verus! {

/// Lower-case hex character of one nibble.
pub open spec fn hex_char(n: u8) -> char
    recommends
        n < 16,
{
    if n == 0 {
        '0'
    } else if n == 1 {
        '1'
    } else if n == 2 {
        '2'
    } else if n == 3 {
        '3'
    } else if n == 4 {
        '4'
    } else if n == 5 {
        '5'
    } else if n == 6 {
        '6'
    } else if n == 7 {
        '7'
    } else if n == 8 {
        '8'
    } else if n == 9 {
        '9'
    } else if n == 10 {
        'a'
    } else if n == 11 {
        'b'
    } else if n == 12 {
        'c'
    } else if n == 13 {
        'd'
    } else if n == 14 {
        'e'
    } else {
        'f'
    }
}

/// The two lower-case hex digits of one byte, high nibble first.
pub open spec fn hex_pair(b: u8) -> Seq<char> {
    seq![hex_char(b / 16), hex_char(b % 16)]
}

/// Lower-case hex rendering of a byte string.
pub open spec fn hex_of(bs: Seq<u8>) -> Seq<char>
    decreases bs.len(),
{
    if bs.len() == 0 {
        Seq::empty()
    } else {
        hex_pair(bs[0]) + hex_of(bs.drop_first())
    }
}

/// Hyphenated rendering of a 16-byte identifier: lower-case hex in
/// groups of 8, 4, 4, 4 and 12 digits, separated by '-'.
pub open spec fn hyphenated(bs: Seq<u8>) -> Seq<char>
    recommends
        bs.len() == 16,
{
    hex_of(bs.subrange(0, 4)) + seq!['-'] + hex_of(bs.subrange(4, 6)) + seq!['-'] + hex_of(
        bs.subrange(6, 8),
    ) + seq!['-'] + hex_of(bs.subrange(8, 10)) + seq!['-'] + hex_of(bs.subrange(10, 16))
}

/// A 16-byte command identifier, as carried in the `id` field of a
/// command payload. It is the idempotency key of the ledger.
#[derive(PartialEq)]
pub struct Uid {
    pub bytes: Vec<u8>,
}

impl View for Uid {
    type V = Seq<u8>;

    open spec fn view(&self) -> Seq<u8> {
        self.bytes@
    }
}

impl Uid {
    /// A well-formed identifier holds exactly 16 bytes.
    pub open spec fn wf(&self) -> bool {
        self.bytes@.len() == 16
    }

    /// Byte-for-byte equality of two identifiers.
    pub fn eq_uid(&self, other: &Uid) -> (r: bool)
        ensures
            r <==> self@ == other@,
    {
        if self.bytes.len() != other.bytes.len() {
            proof {
                assert(self@.len() != other@.len());
            }
            return false;
        }
        let n = self.bytes.len();
        let mut i: usize = 0;
        while i < n
            invariant
                n == self.bytes@.len(),
                n == other.bytes@.len(),
                0 <= i <= n,
                forall|j: int| 0 <= j < i ==> self.bytes@[j] == other.bytes@[j],
            decreases n - i,
        {
            if self.bytes[i] != other.bytes[i] {
                return false;
            }
            i += 1;
        }
        proof {
            assert(self@ =~= other@);
        }
        true
    }
}

impl Clone for Uid {
    fn clone(&self) -> (r: Self)
        ensures
            r@ == self@,
            r.wf() == self.wf(),
    {
        let mut bs: Vec<u8> = Vec::new();
        let mut i: usize = 0;
        while i < self.bytes.len()
            invariant
                0 <= i <= self.bytes@.len(),
                bs@ == self.bytes@.subrange(0, i as int),
            decreases self.bytes@.len() - i,
        {
            bs.push(self.bytes[i]);
            i += 1;
        }
        proof {
            assert(bs@ =~= self.bytes@);
        }
        Uid { bytes: bs }
    }
}

/// Key of an outbound outcome event: the hyphenated form of the identifier.
///
/// Relies on `uuid::Uuid::from_bytes` (which keeps the bytes as given) and
/// on the `Display` of `uuid::fmt::Hyphenated`: the lower-case hex digits of
/// the 16 bytes in groups of 8, 4, 4, 4 and 12, separated by '-'.
#[verifier::external_body]
pub fn hyphenated_key(id: &Uid) -> (r: String)
    requires
        id.wf(),
    ensures
        r@ == hyphenated(id@),
{
    let mut bytes = [0u8; 16];
    bytes.copy_from_slice(&id.bytes);
    uuid::Uuid::from_bytes(bytes).hyphenated().to_string()
}

} // verus!
