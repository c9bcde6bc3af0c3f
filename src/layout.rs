use crate::token::{bytes_of, ErrorCode, TokenData, MAX_NAME_LEN, MAX_SYMBOL_LEN};
use vstd::prelude::*;
use vstd::slice::slice_to_vec;
use vstd::string::StringSliceAdditionalSpecFns;

verus! {

/// Little-endian bytes of `n`, `width` of them.
pub open spec fn le_bytes(n: u64, width: nat) -> Seq<u8> {
    Seq::new(width, |i: int| ((n >> (8 * i) as u64) & 0xff) as u8)
}

/// A length-prefixed string: its byte count as four little-endian bytes, then its bytes.
pub open spec fn prefixed(b: Seq<u8>) -> Seq<u8> {
    le_bytes(b.len() as u64, 4) + b
}

/// The stored fields of a record, in order, without the record-kind tag.
pub open spec fn encoding(d: TokenData) -> Seq<u8> {
    d.creator@ + prefixed(bytes_of(d.name)) + prefixed(bytes_of(d.symbol)) + le_bytes(d.supply, 8)
        + le_bytes(d.decimals as u64, 1) + le_bytes(d.created_at as u64, 8) + le_bytes(
        if d.trading_enabled {
            1
        } else {
            0
        },
        1,
    ) + le_bytes(d.total_revenue_distributed, 8)
}

/// Appends the `width` low bytes of `n`, least significant first.
fn push_le(out: &mut Vec<u8>, n: u64, width: usize)
    requires
        width <= 8,
    ensures
        final(out)@ == old(out)@ + le_bytes(n, width as nat),
{
    let ghost start = out@;
    let mut i: usize = 0;
    while i < width
        invariant
            width <= 8,
            0 <= i <= width,
            out@ == start + le_bytes(n, i as nat),
        decreases width - i,
    {
        let b = ((n >> (8 * i) as u64) & 0xff) as u8;
        out.push(b);
        assert(le_bytes(n, (i + 1) as nat) =~= le_bytes(n, i as nat).push(b));
        i = i + 1;
    }
}

/// Appends `s` with its length prefix.
fn push_prefixed(out: &mut Vec<u8>, s: &str)
    requires
        s.spec_bytes().len() <= u32::MAX,
    ensures
        final(out)@ == old(out)@ + prefixed(s.spec_bytes()),
{
    let b = s.as_bytes();
    push_le(out, b.len() as u64, 4);
    let mut v = slice_to_vec(b);
    let ghost before = out@;
    out.append(&mut v);
    assert(out@ =~= before + s.spec_bytes());
}

impl TokenData {
    /// The record's stored fields, or `FieldTooLong` when the name or the
    /// symbol exceeds its bound. An encoding never exceeds `SIZE` bytes.
    pub fn encode(&self) -> (r: Result<Vec<u8>, ErrorCode>)
        ensures
            match r {
                Ok(v) => self.well_formed() && v@ == encoding(*self) && v@.len() <= TokenData::SIZE,
                Err(e) => !self.well_formed() && e == ErrorCode::FieldTooLong,
            },
    {
        let name: &str = self.name.as_str();
        let symbol: &str = self.symbol.as_str();
        assert(name.spec_bytes() == bytes_of(self.name));
        assert(symbol.spec_bytes() == bytes_of(self.symbol));
        if name.as_bytes().len() > MAX_NAME_LEN || symbol.as_bytes().len() > MAX_SYMBOL_LEN {
            return Err(ErrorCode::FieldTooLong);
        }
        let mut out: Vec<u8> = slice_to_vec(self.creator.bytes.as_slice());
        push_prefixed(&mut out, name);
        push_prefixed(&mut out, symbol);
        push_le(&mut out, self.supply, 8);
        push_le(&mut out, self.decimals as u64, 1);
        push_le(&mut out, self.created_at as u64, 8);
        push_le(
            &mut out,
            if self.trading_enabled {
                1
            } else {
                0
            },
            1,
        );
        push_le(&mut out, self.total_revenue_distributed, 8);
        Ok(out)
    }
}

} // verus!
