//! Identifiers: opaque 128-bit values handed out by storage.

use vstd::prelude::*;

verus! {

/// Identifies a user.
#[derive(Debug, Clone, Copy, PartialEq, Eq, Hash, Structural)]
pub struct UserId(pub u128);

/// Identifies a session. Unguessable, and never supplied by a client.
#[derive(Debug, Clone, Copy, PartialEq, Eq, Hash, Structural)]
pub struct SessionId(pub u128);

/// Identifies a post.
#[derive(Debug, Clone, Copy, PartialEq, Eq, Hash, Structural)]
pub struct PostId(pub u128);

/// The byte at `index` of the 16 bytes of `value`, most significant first.
pub open spec fn be_byte(value: u128, index: int) -> u8 {
    ((value >> ((8 * (15 - index)) as u128)) & 0xff) as u8
}

/// The 16 bytes of `value`, most significant first.
pub open spec fn be_bytes(value: u128) -> Seq<u8> {
    Seq::new(16, |index: int| be_byte(value, index))
}

/// The 16 bytes of `value`, most significant first.
pub fn to_be_bytes(value: u128) -> (res: Vec<u8>)
    ensures
        res@ == be_bytes(value),
{
    let mut bytes: Vec<u8> = Vec::with_capacity(16);
    let mut index: u32 = 0;
    while index < 16
        invariant
            index <= 16,
            bytes@.len() == index,
            forall|i: int| 0 <= i < index ==> bytes@[i] == be_byte(value, i),
        decreases 16 - index,
    {
        let shift: u32 = 8 * (15 - index);
        let byte: u8 = ((value >> shift) & 0xff) as u8;
        assert(byte == be_byte(value, index as int)) by {
            let wide: u128 = shift as u128;
            assert(((value >> shift) & 0xff) == ((value >> wide) & 0xff)) by (bit_vector)
                requires
                    wide == shift as u128,
                    shift < 128,
            ;
        }
        bytes.push(byte);
        index = index + 1;
    }
    assert(bytes@ =~= be_bytes(value));
    bytes
}

impl SessionId {
    /// The raw bytes of the identifier: what a session signature signs.
    pub open spec fn bytes(self) -> Seq<u8> {
        be_bytes(self.0)
    }

    /// The raw bytes of the identifier, most significant first.
    pub fn as_bytes(&self) -> (res: Vec<u8>)
        ensures
            res@ == self.bytes(),
            res@.len() == 16,
    {
        to_be_bytes(self.0)
    }
}

/// Identifiers that differ have raw bytes that differ: a signature over
/// the bytes speaks of one session only.
pub proof fn lemma_bytes_tell_ids_apart(a: SessionId, b: SessionId)
    requires
        a != b,
    ensures
        a.bytes() != b.bytes(),
{
    let x = a.0;
    let y = b.0;
    if a.bytes() == b.bytes() {
        assert forall|i: int| 0 <= i < 16 implies be_byte(x, i) == be_byte(y, i) by {
            assert(a.bytes()[i] == b.bytes()[i]);
        }
        assert(be_byte(x, 0) == be_byte(y, 0));
        assert(be_byte(x, 1) == be_byte(y, 1));
        assert(be_byte(x, 2) == be_byte(y, 2));
        assert(be_byte(x, 3) == be_byte(y, 3));
        assert(be_byte(x, 4) == be_byte(y, 4));
        assert(be_byte(x, 5) == be_byte(y, 5));
        assert(be_byte(x, 6) == be_byte(y, 6));
        assert(be_byte(x, 7) == be_byte(y, 7));
        assert(be_byte(x, 8) == be_byte(y, 8));
        assert(be_byte(x, 9) == be_byte(y, 9));
        assert(be_byte(x, 10) == be_byte(y, 10));
        assert(be_byte(x, 11) == be_byte(y, 11));
        assert(be_byte(x, 12) == be_byte(y, 12));
        assert(be_byte(x, 13) == be_byte(y, 13));
        assert(be_byte(x, 14) == be_byte(y, 14));
        assert(be_byte(x, 15) == be_byte(y, 15));
        assert(x == y) by (bit_vector)
            requires
                ((x >> 120u128) & 0xff) as u8 == ((y >> 120u128) & 0xff) as u8,
                ((x >> 112u128) & 0xff) as u8 == ((y >> 112u128) & 0xff) as u8,
                ((x >> 104u128) & 0xff) as u8 == ((y >> 104u128) & 0xff) as u8,
                ((x >> 96u128) & 0xff) as u8 == ((y >> 96u128) & 0xff) as u8,
                ((x >> 88u128) & 0xff) as u8 == ((y >> 88u128) & 0xff) as u8,
                ((x >> 80u128) & 0xff) as u8 == ((y >> 80u128) & 0xff) as u8,
                ((x >> 72u128) & 0xff) as u8 == ((y >> 72u128) & 0xff) as u8,
                ((x >> 64u128) & 0xff) as u8 == ((y >> 64u128) & 0xff) as u8,
                ((x >> 56u128) & 0xff) as u8 == ((y >> 56u128) & 0xff) as u8,
                ((x >> 48u128) & 0xff) as u8 == ((y >> 48u128) & 0xff) as u8,
                ((x >> 40u128) & 0xff) as u8 == ((y >> 40u128) & 0xff) as u8,
                ((x >> 32u128) & 0xff) as u8 == ((y >> 32u128) & 0xff) as u8,
                ((x >> 24u128) & 0xff) as u8 == ((y >> 24u128) & 0xff) as u8,
                ((x >> 16u128) & 0xff) as u8 == ((y >> 16u128) & 0xff) as u8,
                ((x >> 8u128) & 0xff) as u8 == ((y >> 8u128) & 0xff) as u8,
                ((x >> 0u128) & 0xff) as u8 == ((y >> 0u128) & 0xff) as u8,
        ;
    }
}

} // verus!
