//! A timelock schedule over the full set of named stages: a deployment
//! timestamp fixed at creation plus one relative offset per stage. The
//! absolute start of a stage is the deployment timestamp plus its
//! offset.

use vstd::prelude::*;

use crate::errors::EscrowError;

verus! {

/// The named stages a timelock schedule can hold an offset for.
#[derive(Clone, Copy, Debug, PartialEq, Eq, Structural)]
pub enum Stage {
    SrcWithdrawal,
    SrcPublicWithdrawal,
    SrcCancellation,
    SrcPublicCancellation,
    DstWithdrawal,
    DstPublicWithdrawal,
    DstCancellation,
}

/// A deployment timestamp plus one relative offset per stage, each in
/// seconds. Immutable after creation in normal use; the setters exist
/// for staged construction.
#[derive(Clone, Copy, Debug, PartialEq, Eq, Structural)]
pub struct Timelocks {
    pub deployed_at: u32,
    pub src_withdrawal: u32,
    pub src_public_withdrawal: u32,
    pub src_cancellation: u32,
    pub src_public_cancellation: u32,
    pub dst_withdrawal: u32,
    pub dst_public_withdrawal: u32,
    pub dst_cancellation: u32,
}

impl Timelocks {
    /// The offset stored for `stage`.
    pub open spec fn spec_offset(self, stage: Stage) -> u32 {
        match stage {
            Stage::SrcWithdrawal => self.src_withdrawal,
            Stage::SrcPublicWithdrawal => self.src_public_withdrawal,
            Stage::SrcCancellation => self.src_cancellation,
            Stage::SrcPublicCancellation => self.src_public_cancellation,
            Stage::DstWithdrawal => self.dst_withdrawal,
            Stage::DstPublicWithdrawal => self.dst_public_withdrawal,
            Stage::DstCancellation => self.dst_cancellation,
        }
    }

    /// A fresh schedule: the deployment timestamp is fixed, every stage
    /// offset starts at zero.
    pub fn new(deployed_at: u32) -> (r: Self)
        ensures
            r.deployed_at == deployed_at,
            forall|stage: Stage| r.spec_offset(stage) == 0u32,
    {
        Timelocks {
            deployed_at,
            src_withdrawal: 0,
            src_public_withdrawal: 0,
            src_cancellation: 0,
            src_public_cancellation: 0,
            dst_withdrawal: 0,
            dst_public_withdrawal: 0,
            dst_cancellation: 0,
        }
    }

    /// Replaces the deployment timestamp.
    pub fn set_deployed_at(&mut self, value: u32)
        ensures
            *final(self) == (Timelocks { deployed_at: value, ..*old(self) }),
    {
        self.deployed_at = value;
    }

    /// The deployment timestamp.
    pub fn deployed_at(&self) -> (r: u32)
        ensures
            r == self.deployed_at,
    {
        self.deployed_at
    }

    /// Sets the relative offset for one stage, in seconds from the
    /// deployment timestamp.
    pub fn set_stage(&mut self, stage: Stage, value: u32)
        ensures
            final(self).deployed_at == old(self).deployed_at,
            final(self).spec_offset(stage) == value,
            forall|other: Stage| other != stage
                ==> final(self).spec_offset(other) == old(self).spec_offset(other),
    {
        match stage {
            Stage::SrcWithdrawal => self.src_withdrawal = value,
            Stage::SrcPublicWithdrawal => self.src_public_withdrawal = value,
            Stage::SrcCancellation => self.src_cancellation = value,
            Stage::SrcPublicCancellation => self.src_public_cancellation = value,
            Stage::DstWithdrawal => self.dst_withdrawal = value,
            Stage::DstPublicWithdrawal => self.dst_public_withdrawal = value,
            Stage::DstCancellation => self.dst_cancellation = value,
        }
    }

    /// The absolute time when `stage` starts: the deployment timestamp
    /// plus the stage offset, or `ArithmeticOverflow` if the sum leaves
    /// the representable range.
    pub fn get(&self, stage: Stage) -> (r: Result<u32, EscrowError>)
        ensures
            self.deployed_at + self.spec_offset(stage) <= u32::MAX
                ==> r == Ok::<u32, EscrowError>((self.deployed_at + self.spec_offset(stage)) as u32),
            self.deployed_at + self.spec_offset(stage) > u32::MAX
                ==> r == Err::<u32, EscrowError>(EscrowError::ArithmeticOverflow),
    {
        let offset = match stage {
            Stage::SrcWithdrawal => self.src_withdrawal,
            Stage::SrcPublicWithdrawal => self.src_public_withdrawal,
            Stage::SrcCancellation => self.src_cancellation,
            Stage::SrcPublicCancellation => self.src_public_cancellation,
            Stage::DstWithdrawal => self.dst_withdrawal,
            Stage::DstPublicWithdrawal => self.dst_public_withdrawal,
            Stage::DstCancellation => self.dst_cancellation,
        };
        match self.deployed_at.checked_add(offset) {
            Some(start) => Ok(start),
            None => Err(EscrowError::ArithmeticOverflow),
        }
    }

    /// The start of the rescue window: the deployment timestamp plus
    /// `rescue_delay`, or `ArithmeticOverflow` if the sum leaves the
    /// representable range.
    pub fn rescue_start(&self, rescue_delay: u32) -> (r: Result<u32, EscrowError>)
        ensures
            self.deployed_at + rescue_delay <= u32::MAX
                ==> r == Ok::<u32, EscrowError>((self.deployed_at + rescue_delay) as u32),
            self.deployed_at + rescue_delay > u32::MAX
                ==> r == Err::<u32, EscrowError>(EscrowError::ArithmeticOverflow),
    {
        match self.deployed_at.checked_add(rescue_delay) {
            Some(start) => Ok(start),
            None => Err(EscrowError::ArithmeticOverflow),
        }
    }
}

} // verus!
