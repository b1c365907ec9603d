//! The escrow record: the fixed-layout persistent description of one open
//! trade, stored byte-exact at its derived address with no header and no
//! padding.

use vstd::prelude::*;
use crate::codec::{
    lemma_u64_le_reencode, lemma_u64_le_round_trip, push_bytes, push_u64_le, read_key, read_u64_le,
    u64_from_le_bytes, u64_le_bytes,
};
use crate::error::EscrowError;

verus! {

/// Size in bytes of a stored record: three 32-byte identifiers, one 64-bit
/// quantity, one derivation byte.
pub const RECORD_LEN: usize = 105;

/// One open trade. A record exists in storage exactly while its trade is
/// open; it is populated by Make and reclaimed by Accept or Refund, and is
/// never mutated in between.
pub struct Escrow {
    /// Owner entitled to refund; recipient of the incoming asset Y.
    pub maker: Vec<u8>,
    /// Class of the locked asset.
    pub mint_x: Vec<u8>,
    /// Class of the expected asset.
    pub mint_y: Vec<u8>,
    /// Quantity of asset Y the maker demands.
    pub receive: u64,
    /// Disambiguation byte found while deriving the record address; kept so
    /// the signing seed tuple can be reconstructed later.
    pub bump: u8,
}

/// The maker identifier stored in a record image.
pub open spec fn stored_maker(data: Seq<u8>) -> Seq<u8> {
    data.subrange(0, 32)
}

/// The asset-X class identifier stored in a record image.
pub open spec fn stored_mint_x(data: Seq<u8>) -> Seq<u8> {
    data.subrange(32, 64)
}

/// The asset-Y class identifier stored in a record image.
pub open spec fn stored_mint_y(data: Seq<u8>) -> Seq<u8> {
    data.subrange(64, 96)
}

/// The receive quantity stored in a record image.
pub open spec fn stored_receive(data: Seq<u8>) -> u64 {
    u64_from_le_bytes(data.subrange(96, 104))
}

/// The derivation byte stored in a record image.
pub open spec fn stored_bump(data: Seq<u8>) -> u8 {
    data[104]
}

impl Escrow {
    /// All three identifiers are 32 bytes wide.
    pub open spec fn wf(self) -> bool {
        self.maker@.len() == 32 && self.mint_x@.len() == 32 && self.mint_y@.len() == 32
    }

    /// The stored byte image: maker, asset-X class, asset-Y class, the
    /// receive quantity in little-endian order, then the derivation byte.
    pub open spec fn spec_bytes(self) -> Seq<u8> {
        self.maker@ + self.mint_x@ + self.mint_y@ + u64_le_bytes(self.receive) + seq![self.bump]
    }

    /// Serialize the record into its byte-exact stored image.
    pub fn to_bytes(&self) -> (r: Vec<u8>)
        requires
            self.wf(),
        ensures
            r@ == self.spec_bytes(),
            r@.len() == RECORD_LEN,
    {
        let mut r: Vec<u8> = Vec::new();
        push_bytes(&mut r, &self.maker);
        push_bytes(&mut r, &self.mint_x);
        push_bytes(&mut r, &self.mint_y);
        push_u64_le(&mut r, self.receive);
        r.push(self.bump);
        proof {
            assert(r@ =~= self.spec_bytes());
        }
        r
    }

    /// Parse a stored image. Succeeds exactly on data of the fixed record
    /// size, and then returns the one record whose image the data is.
    pub fn from_bytes(data: &Vec<u8>) -> (r: Result<Escrow, EscrowError>)
        ensures
            match r {
                Ok(e) => data@.len() == RECORD_LEN && e.wf() && e.spec_bytes() == data@,
                Err(err) => err == EscrowError::WrongDataSize && data@.len() != RECORD_LEN,
            },
    {
        if data.len() != RECORD_LEN {
            return Err(EscrowError::WrongDataSize);
        }
        let maker = read_key(data, 0);
        let mint_x = read_key(data, 32);
        let mint_y = read_key(data, 64);
        let receive = read_u64_le(data, 96);
        let bump = data[104];
        let e = Escrow { maker, mint_x, mint_y, receive, bump };
        proof {
            lemma_u64_le_reencode(data@.subrange(96, 104));
            assert(e.spec_bytes() =~= data@);
        }
        Ok(e)
    }
}

/// Reading a field back out of a record's stored image yields that field:
/// the layout loses nothing.
pub proof fn lemma_stored_fields(e: Escrow)
    requires
        e.wf(),
    ensures
        stored_maker(e.spec_bytes()) == e.maker@,
        stored_mint_x(e.spec_bytes()) == e.mint_x@,
        stored_mint_y(e.spec_bytes()) == e.mint_y@,
        stored_receive(e.spec_bytes()) == e.receive,
        stored_bump(e.spec_bytes()) == e.bump,
{
    assert(stored_maker(e.spec_bytes()) =~= e.maker@);
    assert(stored_mint_x(e.spec_bytes()) =~= e.mint_x@);
    assert(stored_mint_y(e.spec_bytes()) =~= e.mint_y@);
    assert(e.spec_bytes().subrange(96, 104) =~= u64_le_bytes(e.receive));
    lemma_u64_le_round_trip(e.receive);
}

} // verus!
