use token_marketplace::codec::Command;
use token_marketplace::error::MarketplaceError;

#[test]
fn encode_initialize_exact_bytes() {
    let c = Command::InitializeMarketplace { fee_percentage: 250 };
    assert_eq!(c.encode(), vec![0u8, 250, 0]);
}

#[test]
fn encode_buy_exact_bytes() {
    let c = Command::BuyTokens { amount: 400 };
    assert_eq!(c.encode(), vec![2u8, 144, 1, 0, 0, 0, 0, 0, 0]);
}

#[test]
fn encode_cancel_exact_bytes() {
    assert_eq!(Command::CancelOrder.encode(), vec![3u8]);
}

#[test]
fn round_trip_all_commands() {
    let commands = vec![
        Command::InitializeMarketplace { fee_percentage: 1000 },
        Command::CreateSellOrder { amount: 1000, price: 10 },
        Command::CreateSellOrder { amount: u64::MAX, price: 1 },
        Command::BuyTokens { amount: 0 },
        Command::BuyTokens { amount: u64::MAX },
        Command::CancelOrder,
        Command::UpdatePrice { new_price: 0x0123_4567_89ab_cdef },
    ];
    for c in commands {
        let encoded = c.encode();
        let decoded = Command::decode(encoded.as_slice()).unwrap();
        assert_eq!(decoded, c);
    }
}

#[test]
fn decode_rejects_empty() {
    let r = Command::decode(&[]);
    assert_eq!(r.unwrap_err(), MarketplaceError::InvalidInstruction);
}

#[test]
fn decode_rejects_unknown_tag() {
    let r = Command::decode(&[5]);
    assert_eq!(r.unwrap_err(), MarketplaceError::InvalidInstruction);
}

#[test]
fn decode_rejects_short_payload() {
    // a CreateSellOrder needs 17 bytes: tag plus two 64-bit fields
    let r = Command::decode(&[1u8; 16]);
    assert_eq!(r.unwrap_err(), MarketplaceError::InvalidInstruction);
}

#[test]
fn decode_rejects_trailing_bytes() {
    let r = Command::decode(&[3, 0]);
    assert_eq!(r.unwrap_err(), MarketplaceError::InvalidInstruction);
    let mut buy = Command::BuyTokens { amount: 4 }.encode();
    buy.push(0);
    let r = Command::decode(buy.as_slice());
    assert_eq!(r.unwrap_err(), MarketplaceError::InvalidInstruction);
}

#[test]
fn decode_reads_little_endian_fields() {
    let data: Vec<u8> = vec![
        1, // create
        0x01, 0x02, 0x03, 0x04, 0x05, 0x06, 0x07, 0x08, // amount
        0xff, 0x00, 0x00, 0x00, 0x00, 0x00, 0x00, 0x80, // price
    ];
    let c = Command::decode(data.as_slice()).unwrap();
    assert_eq!(
        c,
        Command::CreateSellOrder {
            amount: 0x0807_0605_0403_0201,
            price: 0x8000_0000_0000_00ff,
        }
    );
}
