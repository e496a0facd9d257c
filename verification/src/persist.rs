//! The persisted fixed-width layouts of the two records, for the storage
//! the host allocates: 51 bytes for the marketplace ledger (32-byte
//! admin, 2-byte fee rate, two 8-byte accumulators, 1-byte flag) and 89
//! bytes for a sell order (two 32-byte identities, two 8-byte unsigned
//! fields, an 8-byte signed timestamp, 1-byte flag), every integer
//! little-endian. Reading validates the records' invariants: bytes the
//! engine could never have written are rejected.

use vstd::prelude::*;
use crate::codec::lemma_u16_bytes;
use crate::codec::lemma_u16_round;
use crate::codec::lemma_u64_bytes;
use crate::codec::lemma_u64_round;
use crate::codec::push_u64_le;
use crate::codec::read_u64_le;
use crate::codec::spec_u16_le;
use crate::codec::spec_u16_of;
use crate::codec::spec_u64_le;
use crate::codec::spec_u64_of;
use crate::ident::Identity;
use crate::state::Marketplace;
use crate::state::SellOrder;

verus! {

/// One byte for a flag: 1 for true, 0 for false.
pub open spec fn spec_bool_byte(b: bool) -> u8 {
    if b {
        1
    } else {
        0
    }
}

/// The 64-bit two's-complement form of a signed value.
pub open spec fn spec_i64_twos(v: i64) -> u64 {
    if v >= 0 {
        v as u64
    } else {
        (v + 0x1_0000_0000_0000_0000) as u64
    }
}

/// The signed value a 64-bit two's-complement form spells.
pub open spec fn spec_i64_of(w: u64) -> i64 {
    if w <= i64::MAX as u64 {
        w as i64
    } else {
        (w - 0x1_0000_0000_0000_0000) as i64
    }
}

/// Law: the two's-complement forms round-trip in both directions.
pub proof fn lemma_i64_twos_round(v: i64, w: u64)
    ensures
        spec_i64_of(spec_i64_twos(v)) == v,
        spec_i64_twos(spec_i64_of(w)) == w,
{
}

/// The 51-byte persisted form of the marketplace ledger.
pub open spec fn spec_encode_marketplace(m: Marketplace) -> Seq<u8> {
    m.admin@ + spec_u16_le(m.fee_percentage) + spec_u64_le(m.total_volume) + spec_u64_le(
        m.total_fees_collected,
    ) + seq![spec_bool_byte(m.is_initialized)]
}

/// The 89-byte persisted form of a sell order.
pub open spec fn spec_encode_order(o: SellOrder) -> Seq<u8> {
    o.seller@ + o.token_mint@ + spec_u64_le(o.amount) + spec_u64_le(o.price_per_token)
        + spec_u64_le(spec_i64_twos(o.created_at)) + seq![spec_bool_byte(o.is_active)]
}

/// Where each field sits in the marketplace layout.
pub proof fn lemma_marketplace_fields(m: Marketplace)
    ensures
        spec_encode_marketplace(m).len() == 51,
        spec_encode_marketplace(m).subrange(0, 32) == m.admin@,
        spec_encode_marketplace(m).subrange(32, 34) == spec_u16_le(m.fee_percentage),
        spec_encode_marketplace(m).subrange(34, 42) == spec_u64_le(m.total_volume),
        spec_encode_marketplace(m).subrange(42, 50) == spec_u64_le(m.total_fees_collected),
        spec_encode_marketplace(m)[50] == spec_bool_byte(m.is_initialized),
{
    let data = spec_encode_marketplace(m);
    assert(data.subrange(0, 32) =~= m.admin@);
    assert(data.subrange(32, 34) =~= spec_u16_le(m.fee_percentage));
    assert(data.subrange(34, 42) =~= spec_u64_le(m.total_volume));
    assert(data.subrange(42, 50) =~= spec_u64_le(m.total_fees_collected));
}

/// Where each field sits in the order layout.
pub proof fn lemma_order_fields(o: SellOrder)
    ensures
        spec_encode_order(o).len() == 89,
        spec_encode_order(o).subrange(0, 32) == o.seller@,
        spec_encode_order(o).subrange(32, 64) == o.token_mint@,
        spec_encode_order(o).subrange(64, 72) == spec_u64_le(o.amount),
        spec_encode_order(o).subrange(72, 80) == spec_u64_le(o.price_per_token),
        spec_encode_order(o).subrange(80, 88) == spec_u64_le(spec_i64_twos(o.created_at)),
        spec_encode_order(o)[88] == spec_bool_byte(o.is_active),
{
    let data = spec_encode_order(o);
    assert(data.subrange(0, 32) =~= o.seller@);
    assert(data.subrange(32, 64) =~= o.token_mint@);
    assert(data.subrange(64, 72) =~= spec_u64_le(o.amount));
    assert(data.subrange(72, 80) =~= spec_u64_le(o.price_per_token));
    assert(data.subrange(80, 88) =~= spec_u64_le(spec_i64_twos(o.created_at)));
}

/// Law: the marketplace layout is injective. Two ledgers with the same
/// persisted bytes are the same ledger, so nothing is lost in storage.
pub proof fn lemma_marketplace_encode_injective(a: Marketplace, b: Marketplace)
    requires
        spec_encode_marketplace(a) == spec_encode_marketplace(b),
    ensures
        a == b,
{
    lemma_marketplace_fields(a);
    lemma_marketplace_fields(b);
    assert(a.admin@ =~= b.admin@);
    assert(a.admin.bytes =~= b.admin.bytes);
    lemma_u16_round(a.fee_percentage);
    lemma_u16_round(b.fee_percentage);
    lemma_u64_round(a.total_volume);
    lemma_u64_round(b.total_volume);
    lemma_u64_round(a.total_fees_collected);
    lemma_u64_round(b.total_fees_collected);
}

/// Law: the order layout is injective.
pub proof fn lemma_order_encode_injective(a: SellOrder, b: SellOrder)
    requires
        spec_encode_order(a) == spec_encode_order(b),
    ensures
        a == b,
{
    lemma_order_fields(a);
    lemma_order_fields(b);
    assert(a.seller@ =~= b.seller@);
    assert(a.seller.bytes =~= b.seller.bytes);
    assert(a.token_mint@ =~= b.token_mint@);
    assert(a.token_mint.bytes =~= b.token_mint.bytes);
    lemma_u64_round(a.amount);
    lemma_u64_round(b.amount);
    lemma_u64_round(a.price_per_token);
    lemma_u64_round(b.price_per_token);
    lemma_u64_round(spec_i64_twos(a.created_at));
    lemma_u64_round(spec_i64_twos(b.created_at));
    lemma_i64_twos_round(a.created_at, 0);
    lemma_i64_twos_round(b.created_at, 0);
}

fn push_identity(out: &mut Vec<u8>, id: &Identity)
    ensures
        final(out)@ == old(out)@ + id@,
{
    let mut i: usize = 0;
    while i < 32
        invariant
            i <= 32,
            out@ == old(out)@ + id@.subrange(0, i as int),
        decreases 32 - i,
    {
        out.push(id.bytes[i]);
        assert(out@ =~= old(out)@ + id@.subrange(0, i + 1));
        i = i + 1;
    }
    assert(id@.subrange(0, 32) =~= id@);
}

fn read_identity(data: &[u8], at: usize) -> (r: Identity)
    requires
        at + 32 <= data@.len(),
    ensures
        r@ == data@.subrange(at as int, at + 32),
{
    let n = data.len();
    let mut bytes = [0u8; 32];
    let mut i: usize = 0;
    while i < 32
        invariant
            i <= 32,
            at + 32 <= n,
            n == data@.len(),
            forall|j: int| 0 <= j < i ==> bytes@[j] == data@[at + j],
        decreases 32 - i,
    {
        bytes[i] = data[at + i];
        i = i + 1;
    }
    let r = Identity { bytes };
    assert(r@ =~= data@.subrange(at as int, at + 32));
    r
}

fn i64_twos(v: i64) -> (r: u64)
    ensures
        r == spec_i64_twos(v),
{
    if v >= 0 {
        v as u64
    } else {
        let neg: i64 = -(v + 1);
        u64::MAX - (neg as u64)
    }
}

fn i64_untwos(w: u64) -> (r: i64)
    ensures
        r == spec_i64_of(w),
{
    if w <= 0x7fff_ffff_ffff_ffff {
        w as i64
    } else {
        -1i64 - ((u64::MAX - w) as i64)
    }
}

/// Writes the 51-byte persisted form of the marketplace ledger.
pub fn marketplace_to_bytes(m: &Marketplace) -> (r: Vec<u8>)
    ensures
        r@ == spec_encode_marketplace(*m),
        r@.len() == 51,
{
    let mut out: Vec<u8> = Vec::new();
    push_identity(&mut out, &m.admin);
    out.push((m.fee_percentage & 0xff) as u8);
    out.push(((m.fee_percentage >> 8) & 0xff) as u8);
    push_u64_le(&mut out, m.total_volume);
    push_u64_le(&mut out, m.total_fees_collected);
    out.push(if m.is_initialized { 1 } else { 0 });
    assert(out@ =~= spec_encode_marketplace(*m));
    out
}

/// Reads a marketplace ledger back from its persisted form. Exactly the
/// 51-byte strings whose flag byte is 0 or 1 and whose fee rate respects
/// the 10% cap are accepted; an accepted record reassembles the bytes.
pub fn marketplace_from_bytes(data: &[u8]) -> (r: Option<Marketplace>)
    ensures
        r matches Some(m) ==> spec_encode_marketplace(m) == data@ && m.wf(),
        r is None <==> data@.len() != 51 || (data@[50] != 0 && data@[50] != 1) || spec_u16_of(
            data@.subrange(32, 34),
        ) > 1000,
{
    if data.len() != 51 {
        return None;
    }
    let admin = read_identity(data, 0);
    let fee_percentage = (data[32] as u16) | ((data[33] as u16) << 8);
    assert(data@.subrange(32, 34) =~= seq![data@[32], data@[33]]);
    if fee_percentage > 1000 {
        return None;
    }
    let flag = data[50];
    if flag != 0 && flag != 1 {
        return None;
    }
    let total_volume = read_u64_le(data, 34);
    let total_fees_collected = read_u64_le(data, 42);
    let m = Marketplace {
        admin,
        fee_percentage,
        total_volume,
        total_fees_collected,
        is_initialized: flag == 1,
    };
    proof {
        lemma_u16_bytes(data@[32], data@[33]);
        lemma_u64_bytes(
            data@[34],
            data@[35],
            data@[36],
            data@[37],
            data@[38],
            data@[39],
            data@[40],
            data@[41],
        );
        lemma_u64_bytes(
            data@[42],
            data@[43],
            data@[44],
            data@[45],
            data@[46],
            data@[47],
            data@[48],
            data@[49],
        );
        assert(data@.subrange(34, 42) =~= seq![
            data@[34],
            data@[35],
            data@[36],
            data@[37],
            data@[38],
            data@[39],
            data@[40],
            data@[41],
        ]);
        assert(data@.subrange(42, 50) =~= seq![
            data@[42],
            data@[43],
            data@[44],
            data@[45],
            data@[46],
            data@[47],
            data@[48],
            data@[49],
        ]);
        assert(spec_u16_le(m.fee_percentage) =~= data@.subrange(32, 34));
        assert(spec_u64_le(m.total_volume) =~= data@.subrange(34, 42));
        assert(spec_u64_le(m.total_fees_collected) =~= data@.subrange(42, 50));
        assert(spec_encode_marketplace(m) =~= data@);
    }
    Some(m)
}

/// Writes the 89-byte persisted form of a sell order.
pub fn order_to_bytes(o: &SellOrder) -> (r: Vec<u8>)
    ensures
        r@ == spec_encode_order(*o),
        r@.len() == 89,
{
    let mut out: Vec<u8> = Vec::new();
    push_identity(&mut out, &o.seller);
    push_identity(&mut out, &o.token_mint);
    push_u64_le(&mut out, o.amount);
    push_u64_le(&mut out, o.price_per_token);
    push_u64_le(&mut out, i64_twos(o.created_at));
    out.push(if o.is_active { 1 } else { 0 });
    assert(out@ =~= spec_encode_order(*o));
    out
}

/// Reads a sell order back from its persisted form. Exactly the 89-byte
/// strings whose flag byte is 0 or 1 and whose quantity and unit price
/// are positive while the flag is set are accepted; an accepted record
/// reassembles the bytes.
pub fn order_from_bytes(data: &[u8]) -> (r: Option<SellOrder>)
    ensures
        r matches Some(o) ==> spec_encode_order(o) == data@ && o.wf(),
        r is None <==> data@.len() != 89 || (data@[88] != 0 && data@[88] != 1) || (data@[88] == 1
            && (spec_u64_of(data@.subrange(64, 72)) == 0 || spec_u64_of(data@.subrange(72, 80))
            == 0)),
{
    if data.len() != 89 {
        return None;
    }
    let seller = read_identity(data, 0);
    let token_mint = read_identity(data, 32);
    let amount = read_u64_le(data, 64);
    let price_per_token = read_u64_le(data, 72);
    let created_raw = read_u64_le(data, 80);
    let flag = data[88];
    if flag != 0 && flag != 1 {
        return None;
    }
    if flag == 1 && (amount == 0 || price_per_token == 0) {
        return None;
    }
    let o = SellOrder {
        seller,
        token_mint,
        amount,
        price_per_token,
        created_at: i64_untwos(created_raw),
        is_active: flag == 1,
    };
    proof {
        lemma_u64_bytes(
            data@[64],
            data@[65],
            data@[66],
            data@[67],
            data@[68],
            data@[69],
            data@[70],
            data@[71],
        );
        lemma_u64_bytes(
            data@[72],
            data@[73],
            data@[74],
            data@[75],
            data@[76],
            data@[77],
            data@[78],
            data@[79],
        );
        lemma_u64_bytes(
            data@[80],
            data@[81],
            data@[82],
            data@[83],
            data@[84],
            data@[85],
            data@[86],
            data@[87],
        );
        assert(data@.subrange(64, 72) =~= seq![
            data@[64],
            data@[65],
            data@[66],
            data@[67],
            data@[68],
            data@[69],
            data@[70],
            data@[71],
        ]);
        assert(data@.subrange(72, 80) =~= seq![
            data@[72],
            data@[73],
            data@[74],
            data@[75],
            data@[76],
            data@[77],
            data@[78],
            data@[79],
        ]);
        assert(data@.subrange(80, 88) =~= seq![
            data@[80],
            data@[81],
            data@[82],
            data@[83],
            data@[84],
            data@[85],
            data@[86],
            data@[87],
        ]);
        lemma_i64_twos_round(0, created_raw);
        assert(spec_u64_le(o.amount) =~= data@.subrange(64, 72));
        assert(spec_u64_le(o.price_per_token) =~= data@.subrange(72, 80));
        assert(spec_u64_le(spec_i64_twos(o.created_at)) =~= data@.subrange(80, 88));
        assert(spec_encode_order(o) =~= data@);
    }
    Some(o)
}

} // verus!
