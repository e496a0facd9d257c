//! The wire shape of the five typed commands: a one-byte tag followed by
//! the command's fields as fixed-width little-endian integers, with no
//! trailing bytes. `decode` accepts exactly the byte strings `encode`
//! produces; everything else fails `InvalidInstruction`.

use vstd::prelude::*;
use crate::error::MarketplaceError;

verus! {

/// One of the five typed commands the router dispatches.
#[derive(Clone, Copy, Debug, PartialEq, Eq, Structural)]
pub enum Command {
    /// Create the marketplace ledger with the given fee rate.
    InitializeMarketplace { fee_percentage: u16 },
    /// Post a sell order of `amount` units at `price` per unit.
    CreateSellOrder { amount: u64, price: u64 },
    /// Buy `amount` units from an open order.
    BuyTokens { amount: u64 },
    /// Deactivate an open order.
    CancelOrder,
    /// Reprice an open order.
    UpdatePrice { new_price: u64 },
}

/// The two little-endian bytes of a 16-bit value.
pub open spec fn spec_u16_le(v: u16) -> Seq<u8> {
    seq![(v & 0xff) as u8, ((v >> 8) & 0xff) as u8]
}

/// The eight little-endian bytes of a 64-bit value.
pub open spec fn spec_u64_le(v: u64) -> Seq<u8> {
    seq![
        (v & 0xff) as u8,
        ((v >> 8) & 0xff) as u8,
        ((v >> 16) & 0xff) as u8,
        ((v >> 24) & 0xff) as u8,
        ((v >> 32) & 0xff) as u8,
        ((v >> 40) & 0xff) as u8,
        ((v >> 48) & 0xff) as u8,
        ((v >> 56) & 0xff) as u8,
    ]
}

/// The 16-bit value two little-endian bytes spell.
pub open spec fn spec_u16_of(b: Seq<u8>) -> u16
    recommends
        b.len() == 2,
{
    (b[0] as u16) | ((b[1] as u16) << 8)
}

/// The 64-bit value eight little-endian bytes spell.
pub open spec fn spec_u64_of(b: Seq<u8>) -> u64
    recommends
        b.len() == 8,
{
    (b[0] as u64) | ((b[1] as u64) << 8) | ((b[2] as u64) << 16) | ((b[3] as u64) << 24)
        | ((b[4] as u64) << 32) | ((b[5] as u64) << 40) | ((b[6] as u64) << 48)
        | ((b[7] as u64) << 56)
}

/// The byte string of a command: its tag, then its fields little-endian.
pub open spec fn spec_encode(c: Command) -> Seq<u8> {
    match c {
        Command::InitializeMarketplace { fee_percentage } => seq![0u8] + spec_u16_le(
            fee_percentage,
        ),
        Command::CreateSellOrder { amount, price } => seq![1u8] + spec_u64_le(amount)
            + spec_u64_le(price),
        Command::BuyTokens { amount } => seq![2u8] + spec_u64_le(amount),
        Command::CancelOrder => seq![3u8],
        Command::UpdatePrice { new_price } => seq![4u8] + spec_u64_le(new_price),
    }
}

/// The command a byte string spells, or `None` where it matches none of
/// the five shapes exactly.
pub open spec fn spec_decode(data: Seq<u8>) -> Option<Command> {
    if data.len() == 0 {
        None
    } else if data[0] == 0 && data.len() == 3 {
        Some(Command::InitializeMarketplace { fee_percentage: spec_u16_of(data.subrange(1, 3)) })
    } else if data[0] == 1 && data.len() == 17 {
        Some(
            Command::CreateSellOrder {
                amount: spec_u64_of(data.subrange(1, 9)),
                price: spec_u64_of(data.subrange(9, 17)),
            },
        )
    } else if data[0] == 2 && data.len() == 9 {
        Some(Command::BuyTokens { amount: spec_u64_of(data.subrange(1, 9)) })
    } else if data[0] == 3 && data.len() == 1 {
        Some(Command::CancelOrder)
    } else if data[0] == 4 && data.len() == 9 {
        Some(Command::UpdatePrice { new_price: spec_u64_of(data.subrange(1, 9)) })
    } else {
        None
    }
}

pub(crate) proof fn lemma_u16_round(v: u16)
    ensures
        spec_u16_of(spec_u16_le(v)) == v,
{
    let b0 = (v & 0xff) as u8;
    let b1 = ((v >> 8) & 0xff) as u8;
    assert((b0 as u16) | ((b1 as u16) << 8) == v) by (bit_vector)
        requires
            b0 == (v & 0xff) as u8,
            b1 == ((v >> 8) & 0xff) as u8,
    ;
}

pub(crate) proof fn lemma_u64_round(v: u64)
    ensures
        spec_u64_of(spec_u64_le(v)) == v,
{
    let b0 = (v & 0xff) as u8;
    let b1 = ((v >> 8) & 0xff) as u8;
    let b2 = ((v >> 16) & 0xff) as u8;
    let b3 = ((v >> 24) & 0xff) as u8;
    let b4 = ((v >> 32) & 0xff) as u8;
    let b5 = ((v >> 40) & 0xff) as u8;
    let b6 = ((v >> 48) & 0xff) as u8;
    let b7 = ((v >> 56) & 0xff) as u8;
    assert((b0 as u64) | ((b1 as u64) << 8) | ((b2 as u64) << 16) | ((b3 as u64) << 24)
        | ((b4 as u64) << 32) | ((b5 as u64) << 40) | ((b6 as u64) << 48) | ((b7 as u64) << 56)
        == v) by (bit_vector)
        requires
            b0 == (v & 0xff) as u8,
            b1 == ((v >> 8) & 0xff) as u8,
            b2 == ((v >> 16) & 0xff) as u8,
            b3 == ((v >> 24) & 0xff) as u8,
            b4 == ((v >> 32) & 0xff) as u8,
            b5 == ((v >> 40) & 0xff) as u8,
            b6 == ((v >> 48) & 0xff) as u8,
            b7 == ((v >> 56) & 0xff) as u8,
    ;
}

pub(crate) proof fn lemma_u16_bytes(b0: u8, b1: u8)
    ensures
        spec_u16_le((b0 as u16) | ((b1 as u16) << 8)) =~= seq![b0, b1],
{
    let v = (b0 as u16) | ((b1 as u16) << 8);
    assert((v & 0xff) as u8 == b0 && ((v >> 8) & 0xff) as u8 == b1) by (bit_vector)
        requires
            v == (b0 as u16) | ((b1 as u16) << 8),
    ;
}

pub(crate) proof fn lemma_u64_bytes(b0: u8, b1: u8, b2: u8, b3: u8, b4: u8, b5: u8, b6: u8, b7: u8)
    ensures
        spec_u64_le(
            (b0 as u64) | ((b1 as u64) << 8) | ((b2 as u64) << 16) | ((b3 as u64) << 24)
                | ((b4 as u64) << 32) | ((b5 as u64) << 40) | ((b6 as u64) << 48)
                | ((b7 as u64) << 56),
        ) =~= seq![b0, b1, b2, b3, b4, b5, b6, b7],
{
    let v = (b0 as u64) | ((b1 as u64) << 8) | ((b2 as u64) << 16) | ((b3 as u64) << 24)
        | ((b4 as u64) << 32) | ((b5 as u64) << 40) | ((b6 as u64) << 48) | ((b7 as u64) << 56);
    assert((v & 0xff) as u8 == b0 && ((v >> 8) & 0xff) as u8 == b1 && ((v >> 16) & 0xff) as u8
        == b2 && ((v >> 24) & 0xff) as u8 == b3 && ((v >> 32) & 0xff) as u8 == b4 && ((v >> 40)
        & 0xff) as u8 == b5 && ((v >> 48) & 0xff) as u8 == b6 && ((v >> 56) & 0xff) as u8 == b7)
        by (bit_vector)
        requires
            v == (b0 as u64) | ((b1 as u64) << 8) | ((b2 as u64) << 16) | ((b3 as u64) << 24)
                | ((b4 as u64) << 32) | ((b5 as u64) << 40) | ((b6 as u64) << 48) | ((b7
                as u64) << 56),
    ;
}

/// Law: decoding is left inverse to encoding. Every command survives the
/// round trip through its byte string unchanged.
pub proof fn lemma_decode_encode(c: Command)
    ensures
        spec_decode(spec_encode(c)) == Some(c),
{
    match c {
        Command::InitializeMarketplace { fee_percentage } => {
            let data = spec_encode(c);
            assert(data.subrange(1, 3) =~= spec_u16_le(fee_percentage));
            lemma_u16_round(fee_percentage);
        },
        Command::CreateSellOrder { amount, price } => {
            let data = spec_encode(c);
            assert(data.subrange(1, 9) =~= spec_u64_le(amount));
            assert(data.subrange(9, 17) =~= spec_u64_le(price));
            lemma_u64_round(amount);
            lemma_u64_round(price);
        },
        Command::BuyTokens { amount } => {
            let data = spec_encode(c);
            assert(data.subrange(1, 9) =~= spec_u64_le(amount));
            lemma_u64_round(amount);
        },
        Command::CancelOrder => {
        },
        Command::UpdatePrice { new_price } => {
            let data = spec_encode(c);
            assert(data.subrange(1, 9) =~= spec_u64_le(new_price));
            lemma_u64_round(new_price);
        },
    }
}

/// Law: a byte string that decodes to a command is exactly that
/// command's encoding, so no two byte strings spell the same command
/// shape and nothing beyond the five shapes is accepted.
pub proof fn lemma_encode_decode(data: Seq<u8>, c: Command)
    requires
        spec_decode(data) == Some(c),
    ensures
        spec_encode(c) == data,
{
    if data[0] == 0 && data.len() == 3 {
        lemma_u16_bytes(data[1], data[2]);
        assert(spec_encode(c) =~= data);
    } else if data[0] == 1 && data.len() == 17 {
        lemma_u64_bytes(data[1], data[2], data[3], data[4], data[5], data[6], data[7], data[8]);
        lemma_u64_bytes(
            data[9],
            data[10],
            data[11],
            data[12],
            data[13],
            data[14],
            data[15],
            data[16],
        );
        assert(spec_u64_le(spec_u64_of(data.subrange(1, 9))) =~= data.subrange(1, 9));
        assert(spec_u64_le(spec_u64_of(data.subrange(9, 17))) =~= data.subrange(9, 17));
        assert(spec_encode(c) =~= data);
    } else if data[0] == 2 && data.len() == 9 {
        lemma_u64_bytes(data[1], data[2], data[3], data[4], data[5], data[6], data[7], data[8]);
        assert(spec_u64_le(spec_u64_of(data.subrange(1, 9))) =~= data.subrange(1, 9));
        assert(spec_encode(c) =~= data);
    } else if data[0] == 3 && data.len() == 1 {
        assert(spec_encode(c) =~= data);
    } else {
        lemma_u64_bytes(data[1], data[2], data[3], data[4], data[5], data[6], data[7], data[8]);
        assert(spec_u64_le(spec_u64_of(data.subrange(1, 9))) =~= data.subrange(1, 9));
        assert(spec_encode(c) =~= data);
    }
}

pub(crate) fn push_u64_le(out: &mut Vec<u8>, v: u64)
    ensures
        final(out)@ == old(out)@ + spec_u64_le(v),
{
    out.push((v & 0xff) as u8);
    out.push(((v >> 8) & 0xff) as u8);
    out.push(((v >> 16) & 0xff) as u8);
    out.push(((v >> 24) & 0xff) as u8);
    out.push(((v >> 32) & 0xff) as u8);
    out.push(((v >> 40) & 0xff) as u8);
    out.push(((v >> 48) & 0xff) as u8);
    out.push(((v >> 56) & 0xff) as u8);
    assert(out@ =~= old(out)@ + spec_u64_le(v));
}

impl Command {
    /// The command's byte string: its tag, then its fields little-endian.
    pub fn encode(&self) -> (r: Vec<u8>)
        ensures
            r@ == spec_encode(*self),
    {
        let mut out: Vec<u8> = Vec::new();
        match self {
            Command::InitializeMarketplace { fee_percentage } => {
                out.push(0);
                out.push((*fee_percentage & 0xff) as u8);
                out.push(((*fee_percentage >> 8) & 0xff) as u8);
            },
            Command::CreateSellOrder { amount, price } => {
                out.push(1);
                push_u64_le(&mut out, *amount);
                push_u64_le(&mut out, *price);
            },
            Command::BuyTokens { amount } => {
                out.push(2);
                push_u64_le(&mut out, *amount);
            },
            Command::CancelOrder => {
                out.push(3);
            },
            Command::UpdatePrice { new_price } => {
                out.push(4);
                push_u64_le(&mut out, *new_price);
            },
        }
        assert(out@ =~= spec_encode(*self));
        out
    }

    /// Decodes a command payload, or fails `InvalidInstruction` where the
    /// bytes do not match one of the five command shapes exactly.
    pub fn decode(data: &[u8]) -> (r: Result<Command, MarketplaceError>)
        ensures
            r matches Ok(c) ==> spec_decode(data@) == Some(c),
            r is Err ==> spec_decode(data@) is None && r == Err::<Command, MarketplaceError>(
                MarketplaceError::InvalidInstruction,
            ),
    {
        if data.len() == 0 {
            return Err(MarketplaceError::InvalidInstruction);
        }
        let tag = data[0];
        if tag == 0 && data.len() == 3 {
            let fee_percentage = (data[1] as u16) | ((data[2] as u16) << 8);
            assert(data@.subrange(1, 3) =~= seq![data@[1], data@[2]]);
            Ok(Command::InitializeMarketplace { fee_percentage })
        } else if tag == 1 && data.len() == 17 {
            let amount = read_u64_le(data, 1);
            let price = read_u64_le(data, 9);
            Ok(Command::CreateSellOrder { amount, price })
        } else if tag == 2 && data.len() == 9 {
            let amount = read_u64_le(data, 1);
            Ok(Command::BuyTokens { amount })
        } else if tag == 3 && data.len() == 1 {
            Ok(Command::CancelOrder)
        } else if tag == 4 && data.len() == 9 {
            let new_price = read_u64_le(data, 1);
            Ok(Command::UpdatePrice { new_price })
        } else {
            Err(MarketplaceError::InvalidInstruction)
        }
    }
}

/// Reads the 64-bit little-endian value at `at` in `data`.
pub(crate) fn read_u64_le(data: &[u8], at: usize) -> (r: u64)
    requires
        at + 8 <= data@.len(),
    ensures
        r == spec_u64_of(data@.subrange(at as int, at + 8)),
{
    let r = (data[at] as u64) | ((data[at + 1] as u64) << 8) | ((data[at + 2] as u64) << 16) | ((
    data[at + 3] as u64) << 24) | ((data[at + 4] as u64) << 32) | ((data[at + 5] as u64) << 40) | ((
    data[at + 6] as u64) << 48) | ((data[at + 7] as u64) << 56);
    assert(data@.subrange(at as int, at + 8) =~= seq![
        data@[at as int],
        data@[at + 1],
        data@[at + 2],
        data@[at + 3],
        data@[at + 4],
        data@[at + 5],
        data@[at + 6],
        data@[at + 7],
    ]);
    r
}

} // verus!
