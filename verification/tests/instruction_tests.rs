use phoenix_seat_manager::error::SeatManagerError;
use phoenix_seat_manager::instruction::{parse_instruction_tag, SeatManagerInstruction};
use phoenix_seat_manager::market::{parse_market_status, MarketStatus};

#[test]
fn test_instruction_serialization() {
    for i in 0..=10 {
        let instruction = SeatManagerInstruction::from_u8(i).unwrap();
        assert_eq!(instruction.to_u8(), i);
    }
}

#[test]
fn test_instruction_to_vec_is_single_tag_byte() {
    assert_eq!(SeatManagerInstruction::ClaimMarketAuthority.to_vec(), vec![0]);
    assert_eq!(SeatManagerInstruction::EvictSeat.to_vec(), vec![3]);
    assert_eq!(
        SeatManagerInstruction::ConfirmRenounceSeatManagerAuthority.to_vec(),
        vec![11]
    );
}

#[test]
fn test_instruction_unknown_tag_rejected() {
    assert!(SeatManagerInstruction::from_u8(12).is_none());
    assert!(SeatManagerInstruction::from_u8(255).is_none());
}

#[test]
fn test_parse_instruction_tag() {
    let data = vec![4u8, 9, 9];
    assert_eq!(
        parse_instruction_tag(&data),
        Ok(SeatManagerInstruction::AddDesignatedMarketMaker)
    );
    let empty: Vec<u8> = vec![];
    assert_eq!(
        parse_instruction_tag(&empty),
        Err(SeatManagerError::InvalidInstructionData)
    );
    let unknown = vec![12u8];
    assert_eq!(
        parse_instruction_tag(&unknown),
        Err(SeatManagerError::InvalidInstructionData)
    );
}

#[test]
fn test_market_status_tags_round_trip() {
    for tag in 0..=5 {
        let status = MarketStatus::from_u8(tag).unwrap();
        assert_eq!(status.to_u8(), tag);
    }
    assert!(MarketStatus::from_u8(6).is_none());
}

#[test]
fn test_parse_market_status() {
    assert_eq!(parse_market_status(&[1u8]), Ok(MarketStatus::Active));
    assert_eq!(parse_market_status(&[4u8]), Ok(MarketStatus::Closed));
    assert_eq!(
        parse_market_status(&[6u8]),
        Err(SeatManagerError::InvalidInstructionData)
    );
    assert_eq!(
        parse_market_status(&[1u8, 0]),
        Err(SeatManagerError::InvalidInstructionData)
    );
    assert_eq!(
        parse_market_status(&[]),
        Err(SeatManagerError::InvalidInstructionData)
    );
}
