//! The operation surface: one request names one operation.
//!
//! A request's payload starts with a one-byte tag naming the operation;
//! the remainder is operation-specific data.  `to_vec` and `from_u8`
//! fix the tag encoding; `parse_instruction_tag` reads it off a
//! payload.

use vstd::prelude::*;

use crate::error::SeatManagerError;

verus! {

#[derive(Clone, Copy, Debug, PartialEq, Eq, Structural)]
pub enum SeatManagerInstruction {
    /// Bootstrap: create or re-claim the delegate record and take over
    /// market administration.
    ClaimMarketAuthority,
    /// Self-service seat admission: the trader signs for itself.
    ClaimSeat,
    /// Authorized seat admission: the delegate authority signs on the
    /// trader's behalf.
    ClaimSeatAuthorized,
    /// Deposit-protected eviction of a batch of seats.
    EvictSeat,
    /// Register a trader as a designated market maker.
    AddDesignatedMarketMaker,
    /// Remove a trader from the maker registry.
    RemoveDesignatedMarketMaker,
    /// Name the next delegate authority (null initiates renunciation).
    NameSuccessor,
    /// The named successor claims the delegate authority.
    ClaimSeatManagerAuthority,
    /// Authority-gated change of the market's status.
    ChangeMarketStatus,
    /// Authority-gated naming of the market's next authority.
    NameMarketAuthoritySuccessor,
    /// Authority-gated change of the market's fee recipient.
    ChangeMarketFeeRecipient,
    /// Confirm a pending renunciation: the authority becomes null
    /// forever.
    ConfirmRenounceSeatManagerAuthority,
}

/// The one-byte tag of each operation.
pub open spec fn instruction_tag(instr: SeatManagerInstruction) -> u8 {
    match instr {
        SeatManagerInstruction::ClaimMarketAuthority => 0,
        SeatManagerInstruction::ClaimSeat => 1,
        SeatManagerInstruction::ClaimSeatAuthorized => 2,
        SeatManagerInstruction::EvictSeat => 3,
        SeatManagerInstruction::AddDesignatedMarketMaker => 4,
        SeatManagerInstruction::RemoveDesignatedMarketMaker => 5,
        SeatManagerInstruction::NameSuccessor => 6,
        SeatManagerInstruction::ClaimSeatManagerAuthority => 7,
        SeatManagerInstruction::ChangeMarketStatus => 8,
        SeatManagerInstruction::NameMarketAuthoritySuccessor => 9,
        SeatManagerInstruction::ChangeMarketFeeRecipient => 10,
        SeatManagerInstruction::ConfirmRenounceSeatManagerAuthority => 11,
    }
}

impl SeatManagerInstruction {
    /// The operation's tag byte.
    pub fn to_u8(&self) -> (r: u8)
        ensures
            r == instruction_tag(*self),
    {
        match *self {
            SeatManagerInstruction::ClaimMarketAuthority => 0,
            SeatManagerInstruction::ClaimSeat => 1,
            SeatManagerInstruction::ClaimSeatAuthorized => 2,
            SeatManagerInstruction::EvictSeat => 3,
            SeatManagerInstruction::AddDesignatedMarketMaker => 4,
            SeatManagerInstruction::RemoveDesignatedMarketMaker => 5,
            SeatManagerInstruction::NameSuccessor => 6,
            SeatManagerInstruction::ClaimSeatManagerAuthority => 7,
            SeatManagerInstruction::ChangeMarketStatus => 8,
            SeatManagerInstruction::NameMarketAuthoritySuccessor => 9,
            SeatManagerInstruction::ChangeMarketFeeRecipient => 10,
            SeatManagerInstruction::ConfirmRenounceSeatManagerAuthority => 11,
        }
    }

    /// The operation named by a tag byte; `None` for an unknown tag.
    pub fn from_u8(tag: u8) -> (r: Option<SeatManagerInstruction>)
        ensures
            match r {
                Some(instr) => instruction_tag(instr) == tag,
                None => tag > 11,
            },
    {
        if tag == 0 {
            Some(SeatManagerInstruction::ClaimMarketAuthority)
        } else if tag == 1 {
            Some(SeatManagerInstruction::ClaimSeat)
        } else if tag == 2 {
            Some(SeatManagerInstruction::ClaimSeatAuthorized)
        } else if tag == 3 {
            Some(SeatManagerInstruction::EvictSeat)
        } else if tag == 4 {
            Some(SeatManagerInstruction::AddDesignatedMarketMaker)
        } else if tag == 5 {
            Some(SeatManagerInstruction::RemoveDesignatedMarketMaker)
        } else if tag == 6 {
            Some(SeatManagerInstruction::NameSuccessor)
        } else if tag == 7 {
            Some(SeatManagerInstruction::ClaimSeatManagerAuthority)
        } else if tag == 8 {
            Some(SeatManagerInstruction::ChangeMarketStatus)
        } else if tag == 9 {
            Some(SeatManagerInstruction::NameMarketAuthoritySuccessor)
        } else if tag == 10 {
            Some(SeatManagerInstruction::ChangeMarketFeeRecipient)
        } else if tag == 11 {
            Some(SeatManagerInstruction::ConfirmRenounceSeatManagerAuthority)
        } else {
            None
        }
    }

    /// The operation's payload encoding: its tag as a single byte.
    pub fn to_vec(&self) -> (r: Vec<u8>)
        ensures
            r@ == seq![instruction_tag(*self)],
    {
        let mut v: Vec<u8> = Vec::new();
        v.push(self.to_u8());
        proof {
            assert(v@ =~= seq![instruction_tag(*self)]);
        }
        v
    }
}

/// Reads the operation tag off a request payload.  Fails on an empty
/// payload and on an unknown tag.
pub fn parse_instruction_tag(data: &[u8]) -> (r: Result<SeatManagerInstruction, SeatManagerError>)
    ensures
        match r {
            Ok(instr) => data@.len() > 0 && instruction_tag(instr) == data@[0],
            Err(e) => {
                &&& e == SeatManagerError::InvalidInstructionData
                &&& (data@.len() == 0 || data@[0] > 11)
            },
        },
{
    if data.len() == 0 {
        return Err(SeatManagerError::InvalidInstructionData);
    }
    let tag = data[0];
    match SeatManagerInstruction::from_u8(tag) {
        Some(instr) => Ok(instr),
        None => Err(SeatManagerError::InvalidInstructionData),
    }
}

} // verus!
