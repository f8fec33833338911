//! The native identifier of a stored document and its text form.

use vstd::prelude::*;

verus! {

/// The sixteen digits of lower-case hexadecimal, in order of value.
pub open spec fn hex_digits() -> Seq<char> {
    seq!['0', '1', '2', '3', '4', '5', '6', '7', '8', '9', 'a', 'b', 'c', 'd', 'e', 'f']
}

/// The lower-case hexadecimal text of `bytes`: two digits for each byte,
/// the high half first.
pub open spec fn hex_string(bytes: Seq<u8>) -> Seq<char> {
    Seq::new(
        2 * bytes.len(),
        |i: int|
            if i % 2 == 0 {
                hex_digits()[bytes[i / 2] as int / 16]
            } else {
                hex_digits()[bytes[i / 2] as int % 16]
            },
    )
}

/// Distinct values below sixteen have distinct digits.
proof fn lemma_hex_digit_injective(m: int, n: int)
    requires
        0 <= m < 16,
        0 <= n < 16,
        hex_digits()[m] == hex_digits()[n],
    ensures
        m == n,
{
}

/// Byte strings of equal text are equal.
pub proof fn lemma_hex_string_injective(a: Seq<u8>, b: Seq<u8>)
    requires
        hex_string(a) == hex_string(b),
    ensures
        a == b,
{
    assert(hex_string(a).len() == 2 * a.len());
    assert(hex_string(b).len() == 2 * b.len());
    assert(a.len() == b.len());
    assert forall|k: int| 0 <= k < a.len() implies a[k] == b[k] by {
        let high_a = hex_string(a)[2 * k];
        let high_b = hex_string(b)[2 * k];
        let low_a = hex_string(a)[2 * k + 1];
        let low_b = hex_string(b)[2 * k + 1];
        assert(high_a == hex_digits()[a[k] as int / 16]);
        assert(high_b == hex_digits()[b[k] as int / 16]);
        assert(low_a == hex_digits()[a[k] as int % 16]);
        assert(low_b == hex_digits()[b[k] as int % 16]);
        lemma_hex_digit_injective(a[k] as int / 16, b[k] as int / 16);
        lemma_hex_digit_injective(a[k] as int % 16, b[k] as int % 16);
    }
    assert(a =~= b);
}

/// The identifier that the document store assigns to a record: twelve bytes.
#[derive(Clone, Copy, Debug, PartialEq, Eq, Hash)]
pub struct DocumentId {
    pub bytes: [u8; 12],
}

impl View for DocumentId {
    type V = Seq<u8>;

    open spec fn view(&self) -> Seq<u8> {
        self.bytes@
    }
}

/// Calls `ObjectId::from_bytes` and then `ObjectId::to_hex` of the `bson`
/// crate that `mongodb` re-exports. Trusted: the text is the lower-case
/// hexadecimal of the twelve bytes, high half of each byte first.
#[verifier::external_body]
fn object_id_to_hex(bytes: [u8; 12]) -> (text: String)
    ensures
        text@ == hex_string(bytes@),
{
    mongodb::bson::oid::ObjectId::from_bytes(bytes).to_hex()
}

impl DocumentId {
    /// The identifier made of `bytes`.
    pub fn from_bytes(bytes: [u8; 12]) -> (id: DocumentId)
        ensures
            id@ == bytes@,
            id.bytes == bytes,
    {
        DocumentId { bytes }
    }

    /// The twelve bytes of the identifier.
    pub fn bytes(&self) -> (bytes: [u8; 12])
        ensures
            bytes@ == self@,
            bytes == self.bytes,
    {
        self.bytes
    }

    /// The display-safe text of the identifier: twenty-four hexadecimal
    /// digits.
    pub fn to_hex(&self) -> (text: String)
        ensures
            text@ == hex_string(self@),
            text@.len() == 24,
    {
        object_id_to_hex(self.bytes)
    }
}

} // verus!
