//! The write and erase protocols of the flash controller as sessions.
//!
//! A session decides, the owner of the hardware acts: [`FlashSession::step`]
//! takes what the last action observed and returns the next action, until it
//! returns [`FlashAction::Finish`]. A write validates the address, sets up the
//! controller, checks that the new data only clears bits of the old, loads
//! the data, unlocks, commits, locks again and checks the access-fault flag.
//! An erase does the same without the data. No session finishes while the
//! controller is unlocked.
use vstd::prelude::*;

use super::{
    FlashError, aligned_128, aligned_32, can_program, in_flash, physical_address, physical_of,
    programmable, quad_address, quad_of, splice_word, with_lane, lane_of,
};

verus! {

/// One register-level action for the owner of the hardware to perform.
#[derive(Debug, Clone, Copy, PartialEq, Eq)]
pub enum FlashAction {
    /// Busy-poll until the controller is no longer busy; answered with `Done`.
    WaitIdle,
    /// Write the controller's clock divider; answered with `Done`.
    SetClockDivisor(u8),
    /// Read the access-fault flag; answered with `Fault`.
    ReadFault,
    /// Clear the access-fault flag; answered with `Done`.
    ClearFault,
    /// Read the 32-bit flash word at this address; answered with `Word`.
    ReadWord(u32),
    /// Write the target address register (an offset into the flash);
    /// answered with `Done`.
    SetAddress(u32),
    /// Write the four data registers, lowest address first; answered with
    /// `Done`.
    LoadData([u32; 4]),
    /// Write the unlock code and wait until the lock status reads unlocked;
    /// answered with `Done`.
    Unlock,
    /// Write the page erase code; answered with `Done`.
    SetEraseCode,
    /// Start the write, wait until it is complete, then until the
    /// controller is no longer busy; answered with `Done`.
    CommitWrite,
    /// Start the page erase, wait until it is complete, then until the
    /// controller is no longer busy; answered with `Done`.
    CommitErase,
    /// Write the lock code and wait until the lock status reads locked;
    /// answered with `Done`.
    Lock,
    /// The session is over, with this result.
    Finish(Result<(), FlashError>),
}

/// What the owner of the hardware observed while performing an action.
#[derive(Debug, Clone, Copy, PartialEq, Eq)]
pub enum FlashEvent {
    /// The action is done and read nothing.
    Done,
    /// The flash word that `ReadWord` read.
    Word(u32),
    /// The access-fault flag that `ReadFault` read.
    Fault(bool),
}

/// The operation a session carries out.
#[derive(Debug, Clone, Copy, PartialEq, Eq, Structural)]
pub enum FlashOp {
    /// Write the session's four words at its 128-bit-aligned address.
    Write128,
    /// Write one 32-bit word at the session's address; the session first
    /// reads the 128-bit word around it and then writes that word with the
    /// one lane replaced.
    Write32(u32),
    /// Erase the page that holds the session's address.
    Erase,
}

/// Where a session stands: the last action it asked for, whose answer it
/// awaits.
#[derive(Debug, Clone, Copy, PartialEq, Eq)]
pub enum Stage {
    /// Nothing asked yet.
    Start,
    /// `ReadWord` of this lane of the 128-bit word around a 32-bit write.
    Gathering(u32),
    /// `WaitIdle`.
    Idling,
    /// `SetClockDivisor`.
    Dividing,
    /// `ReadFault` of a fault left from before the session.
    StaleFault,
    /// `ClearFault` of a fault left from before the session.
    StaleClearing,
    /// `ReadWord` of this lane of the target, for the hazard check.
    Checking(u32),
    /// `SetAddress`.
    Addressing,
    /// `LoadData`.
    Loading,
    /// `Unlock`.
    Unlocking,
    /// `SetEraseCode`.
    Coding,
    /// `CommitWrite` or `CommitErase`.
    Committing,
    /// `Lock`.
    Locking,
    /// `ReadFault` after the operation.
    FaultReading,
    /// `ClearFault` after the operation.
    FaultClearing,
    /// `Finish` with this result.
    Finished(Result<(), FlashError>),
}

/// One write or erase of the flash controller, from validation to the final
/// fault check.
#[derive(Debug, Clone, Copy, PartialEq, Eq)]
pub struct FlashSession {
    /// What the session does.
    pub op: FlashOp,
    /// The target address.
    pub address: u32,
    /// The words to write, or the words gathered so far around a 32-bit
    /// write.
    pub data: [u32; 4],
    /// The clock divisor the controller is set up with before a write.
    pub clkdiv: u8,
    /// Where the session stands.
    pub stage: Stage,
}

/// The answer that the action a stage stands for gives.
pub open spec fn answers(stage: Stage, event: FlashEvent) -> bool {
    match stage {
        Stage::Gathering(_) | Stage::Checking(_) => event is Word,
        Stage::StaleFault | Stage::FaultReading => event is Fault,
        _ => event is Done,
    }
}

/// The word an event carries, for the stages that await one.
pub open spec fn word_of(event: FlashEvent) -> u32 {
    match event {
        FlashEvent::Word(w) => w,
        _ => 0,
    }
}

/// The flag an event carries, for the stages that await one.
pub open spec fn flag_of(event: FlashEvent) -> bool {
    match event {
        FlashEvent::Fault(f) => f,
        _ => false,
    }
}

impl FlashSession {
    /// The stages the session can be in for its operation.
    pub open spec fn wf(&self) -> bool {
        match self.stage {
            Stage::Start => true,
            Stage::Gathering(i) => self.op is Write32 && i < 4 && in_flash(self.address)
                && aligned_32(self.address),
            Stage::Finished(_) => !(self.op is Write32),
            Stage::Dividing | Stage::StaleFault | Stage::StaleClearing | Stage::Loading => self.op
                is Write128 && in_flash(self.address) && aligned_128(self.address),
            Stage::Checking(i) => self.op is Write128 && i < 4 && in_flash(self.address)
                && aligned_128(self.address),
            Stage::Coding => self.op is Erase && in_flash(self.address),
            _ => !(self.op is Write32) && in_flash(self.address) && (self.op is Write128
                ==> aligned_128(self.address)),
        }
    }

    /// The address has the alignment and range that the operation needs.
    pub open spec fn valid_target(&self) -> bool {
        match self.op {
            FlashOp::Write128 => in_flash(self.address) && aligned_128(self.address),
            FlashOp::Write32(_) => in_flash(self.address) && aligned_32(self.address),
            FlashOp::Erase => in_flash(self.address),
        }
    }

    /// The session in another stage.
    pub open spec fn at(self, stage: Stage) -> FlashSession {
        FlashSession { stage, ..self }
    }

    /// The next state and action after `event`, the answer to the last action.
    pub open spec fn next(self, event: FlashEvent) -> (FlashSession, FlashAction) {
        match self.stage {
            Stage::Start => if !self.valid_target() {
                let r = Err(FlashError::InvalidAddress);
                let op = if self.op is Write32 { FlashOp::Write128 } else { self.op };
                (FlashSession { op, stage: Stage::Finished(r), ..self }, FlashAction::Finish(r))
            } else if self.op is Write32 {
                (self.at(Stage::Gathering(0)), FlashAction::ReadWord(quad_of(self.address) as u32))
            } else {
                (self.at(Stage::Idling), FlashAction::WaitIdle)
            },
            Stage::Gathering(i) => {
                let data = with_lane(self.data, i as int, word_of(event));
                if i < 3 {
                    (
                        FlashSession { data, stage: Stage::Gathering((i + 1) as u32), ..self },
                        FlashAction::ReadWord((quad_of(self.address) + 4 * (i + 1)) as u32),
                    )
                } else {
                    let word = self.op->Write32_0;
                    (
                        FlashSession {
                            op: FlashOp::Write128,
                            address: quad_of(self.address) as u32,
                            data: with_lane(data, lane_of(self.address), word),
                            stage: Stage::Idling,
                            ..self
                        },
                        FlashAction::WaitIdle,
                    )
                }
            },
            Stage::Idling => if self.op is Erase {
                (self.at(Stage::Addressing), FlashAction::SetAddress(
                    physical_of(self.address) as u32,
                ))
            } else {
                (self.at(Stage::Dividing), FlashAction::SetClockDivisor(self.clkdiv))
            },
            Stage::Dividing => (self.at(Stage::StaleFault), FlashAction::ReadFault),
            Stage::StaleFault => if flag_of(event) {
                (self.at(Stage::StaleClearing), FlashAction::ClearFault)
            } else {
                (self.at(Stage::Checking(0)), FlashAction::ReadWord(self.address))
            },
            Stage::StaleClearing => (self.at(Stage::Checking(0)), FlashAction::ReadWord(self.address)),
            Stage::Checking(i) => if !programmable(word_of(event), self.data[i as int]) {
                let r = Err(FlashError::NeedsErase);
                (self.at(Stage::Finished(r)), FlashAction::Finish(r))
            } else if i < 3 {
                (
                    self.at(Stage::Checking((i + 1) as u32)),
                    FlashAction::ReadWord((self.address + 4 * (i + 1)) as u32),
                )
            } else {
                (self.at(Stage::Addressing), FlashAction::SetAddress(
                    physical_of(self.address) as u32,
                ))
            },
            Stage::Addressing => if self.op is Erase {
                (self.at(Stage::Unlocking), FlashAction::Unlock)
            } else {
                (self.at(Stage::Loading), FlashAction::LoadData(self.data))
            },
            Stage::Loading => (self.at(Stage::Unlocking), FlashAction::Unlock),
            Stage::Unlocking => if self.op is Erase {
                (self.at(Stage::Coding), FlashAction::SetEraseCode)
            } else {
                (self.at(Stage::Committing), FlashAction::CommitWrite)
            },
            Stage::Coding => (self.at(Stage::Committing), FlashAction::CommitErase),
            Stage::Committing => (self.at(Stage::Locking), FlashAction::Lock),
            Stage::Locking => (self.at(Stage::FaultReading), FlashAction::ReadFault),
            Stage::FaultReading => if flag_of(event) {
                (self.at(Stage::FaultClearing), FlashAction::ClearFault)
            } else {
                (self.at(Stage::Finished(Ok(()))), FlashAction::Finish(Ok(())))
            },
            Stage::FaultClearing => {
                let r = Err(FlashError::AccessViolation);
                (self.at(Stage::Finished(r)), FlashAction::Finish(r))
            },
            Stage::Finished(r) => (self, FlashAction::Finish(r)),
        }
    }

    /// The controller is unlocked once the action the session awaits has
    /// been performed (given that it was locked when the session began).
    pub open spec fn unlocked(&self) -> bool {
        match self.stage {
            Stage::Unlocking | Stage::Coding | Stage::Committing => true,
            _ => false,
        }
    }

    /// The session is over.
    pub open spec fn finished(&self) -> bool {
        self.stage is Finished
    }

    /// The session is over.
    pub fn is_finished(&self) -> (r: bool)
        ensures
            r == self.finished(),
    {
        match self.stage {
            Stage::Finished(_) => true,
            _ => false,
        }
    }

    /// Takes the answer to the last action and returns the next action.
    pub fn step(&mut self, event: FlashEvent) -> (action: FlashAction)
        requires
            old(self).wf(),
            answers(old(self).stage, event),
        ensures
            (*final(self), action) == old(self).next(event),
            final(self).wf(),
    {
        let s = *self;
        let (next, action) = match s.stage {
            Stage::Start => {
                let valid = match s.op {
                    FlashOp::Write128 => in_flash_exec(s.address) && s.address & 0b1111 == 0,
                    FlashOp::Write32(_) => in_flash_exec(s.address) && s.address & 0b11 == 0,
                    FlashOp::Erase => in_flash_exec(s.address),
                };
                proof {
                    super::lemma_mask_alignment(s.address);
                }
                if !valid {
                    let r = Err(FlashError::InvalidAddress);
                    let op = match s.op {
                        FlashOp::Write32(_) => FlashOp::Write128,
                        other => other,
                    };
                    (FlashSession { op, stage: Stage::Finished(r), ..s }, FlashAction::Finish(r))
                } else {
                    match s.op {
                        FlashOp::Write32(_) => (
                            s.with_stage(Stage::Gathering(0)),
                            FlashAction::ReadWord(quad_address(s.address)),
                        ),
                        _ => (s.with_stage(Stage::Idling), FlashAction::WaitIdle),
                    }
                }
            },
            Stage::Gathering(i) => {
                let w = match event {
                    FlashEvent::Word(w) => w,
                    _ => 0,
                };
                let data = splice_lane(s.data, i, w);
                let quad = quad_address(s.address);
                if i < 3 {
                    (
                        FlashSession { data, stage: Stage::Gathering(i + 1), ..s },
                        FlashAction::ReadWord(quad + 4 * (i + 1)),
                    )
                } else {
                    let word = match s.op {
                        FlashOp::Write32(word) => word,
                        _ => 0,
                    };
                    (
                        FlashSession {
                            op: FlashOp::Write128,
                            address: quad,
                            data: splice_word(data, s.address, word),
                            stage: Stage::Idling,
                            ..s
                        },
                        FlashAction::WaitIdle,
                    )
                }
            },
            Stage::Idling => match s.op {
                FlashOp::Erase => (
                    s.with_stage(Stage::Addressing),
                    FlashAction::SetAddress(physical_address(s.address)),
                ),
                _ => (s.with_stage(Stage::Dividing), FlashAction::SetClockDivisor(s.clkdiv)),
            },
            Stage::Dividing => (s.with_stage(Stage::StaleFault), FlashAction::ReadFault),
            Stage::StaleFault => {
                let set = match event {
                    FlashEvent::Fault(f) => f,
                    _ => false,
                };
                if set {
                    (s.with_stage(Stage::StaleClearing), FlashAction::ClearFault)
                } else {
                    (s.with_stage(Stage::Checking(0)), FlashAction::ReadWord(s.address))
                }
            },
            Stage::StaleClearing => (
                s.with_stage(Stage::Checking(0)),
                FlashAction::ReadWord(s.address),
            ),
            Stage::Checking(i) => {
                let old = match event {
                    FlashEvent::Word(w) => w,
                    _ => 0,
                };
                if !can_program(old, s.data[i as usize]) {
                    let r = Err(FlashError::NeedsErase);
                    (s.with_stage(Stage::Finished(r)), FlashAction::Finish(r))
                } else if i < 3 {
                    (
                        s.with_stage(Stage::Checking(i + 1)),
                        FlashAction::ReadWord(s.address + 4 * (i + 1)),
                    )
                } else {
                    (
                        s.with_stage(Stage::Addressing),
                        FlashAction::SetAddress(physical_address(s.address)),
                    )
                }
            },
            Stage::Addressing => match s.op {
                FlashOp::Erase => (s.with_stage(Stage::Unlocking), FlashAction::Unlock),
                _ => (s.with_stage(Stage::Loading), FlashAction::LoadData(s.data)),
            },
            Stage::Loading => (s.with_stage(Stage::Unlocking), FlashAction::Unlock),
            Stage::Unlocking => match s.op {
                FlashOp::Erase => (s.with_stage(Stage::Coding), FlashAction::SetEraseCode),
                _ => (s.with_stage(Stage::Committing), FlashAction::CommitWrite),
            },
            Stage::Coding => (s.with_stage(Stage::Committing), FlashAction::CommitErase),
            Stage::Committing => (s.with_stage(Stage::Locking), FlashAction::Lock),
            Stage::Locking => (s.with_stage(Stage::FaultReading), FlashAction::ReadFault),
            Stage::FaultReading => {
                let set = match event {
                    FlashEvent::Fault(f) => f,
                    _ => false,
                };
                if set {
                    (s.with_stage(Stage::FaultClearing), FlashAction::ClearFault)
                } else {
                    (s.with_stage(Stage::Finished(Ok(()))), FlashAction::Finish(Ok(())))
                }
            },
            Stage::FaultClearing => {
                let r = Err(FlashError::AccessViolation);
                (s.with_stage(Stage::Finished(r)), FlashAction::Finish(r))
            },
            Stage::Finished(r) => (s, FlashAction::Finish(r)),
        };
        *self = next;
        action
    }

    fn with_stage(self, stage: Stage) -> (r: FlashSession)
        ensures
            r == self.at(stage),
    {
        FlashSession { stage, ..self }
    }
}

/// The address lies in the flash memory.
fn in_flash_exec(address: u32) -> (r: bool)
    ensures
        r == in_flash(address),
{
    super::FLASH_BASE <= address && address < super::FLASH_END
}

/// Replaces one lane of a 128-bit word.
fn splice_lane(quad: [u32; 4], lane: u32, word: u32) -> (r: [u32; 4])
    requires
        lane < 4,
    ensures
        r == with_lane(quad, lane as int, word),
{
    let mut spliced = quad;
    spliced[lane as usize] = word;
    assert(spliced =~= with_lane(quad, lane as int, word));
    spliced
}

} // verus!
