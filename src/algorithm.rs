//! The programming algorithm a host tool drives over the debug transport:
//! initialize, erase the chip or a sector, program a page, tear down.
//!
//! Each operation checks the session's state and its arguments and returns
//! the steps to perform: driver commands at chip-relative offsets, bracketed
//! by status-indicator changes.
use vstd::prelude::*;
use flash_algorithm::Function;
use crate::flash::{FlashCommand, NarrowFlash};
use crate::geometry::{FLASH_BASE, VENDOR_ID, in_window, span_in_window, relative_offset, span_offset};

verus! {

/// Declares flash_algorithm::Function, the operation the host tool announces
/// at initialization, so that it can be passed through; its contents are
/// never inspected.
#[verifier::external_type_specification]
#[verifier::external_body]
pub struct ExFunction(Function);

/// Wire code of [`FlashError::AddressOutOfRange`]; identifier mismatches use
/// the codes below it.
pub const ADDRESS_OUT_OF_RANGE_CODE: u32 = 0x100;

/// Wire code of [`FlashError::InvalidState`].
pub const INVALID_STATE_CODE: u32 = 0x101;

/// Why an operation was refused.
#[derive(Clone, Copy, Debug, PartialEq, Eq, Structural)]
pub enum FlashError {
    /// The chip's first identifier byte is not the expected vendor's.
    DeviceMismatch { id: u8 },
    /// The address, or the span it starts, is outside the mapped window.
    AddressOutOfRange { address: u32 },
    /// The operation is not valid in the session's current state.
    InvalidState,
}

pub open spec fn error_code(e: FlashError) -> u32 {
    match e {
        FlashError::DeviceMismatch { id } => id as u32,
        FlashError::AddressOutOfRange { .. } => ADDRESS_OUT_OF_RANGE_CODE,
        FlashError::InvalidState => INVALID_STATE_CODE,
    }
}

impl FlashError {
    /// The numeric code reported to the host tool. A mismatch reports the
    /// identifier byte that was read.
    pub fn code(&self) -> (r: u32)
        ensures
            r == error_code(*self),
    {
        match self {
            FlashError::DeviceMismatch { id } => *id as u32,
            FlashError::AddressOutOfRange { .. } => ADDRESS_OUT_OF_RANGE_CODE,
            FlashError::InvalidState => INVALID_STATE_CODE,
        }
    }
}

/// One thing for the runtime to do.
#[derive(Clone, Copy, Debug, PartialEq, Eq, Structural)]
pub enum Step {
    /// Drive the "operation in progress" indicator.
    Indicator { active: bool },
    /// Call the flash driver.
    Command(FlashCommand),
}

/// Commands that change the chip's contents and so run under the indicator.
pub open spec fn needs_indicator(c: FlashCommand) -> bool {
    c is EraseChip || c is EraseSector || c is Write
}

/// `c` run with the indicator active, and the indicator inactive again after.
pub open spec fn bracketed(c: FlashCommand) -> Seq<Step> {
    seq![Step::Indicator { active: true }, Step::Command(c), Step::Indicator { active: false }]
}

/// What the runtime does before `initialize`: set the indicator up inactive
/// and read the chip's identifier.
pub open spec fn identify_plan() -> Seq<Step> {
    seq![Step::Indicator { active: false }, Step::Command(FlashCommand::ReadId)]
}

/// Indicator state after performing `steps` from state `active`.
pub open spec fn indicator_after(active: bool, steps: Seq<Step>) -> bool
    decreases steps.len(),
{
    if steps.len() == 0 {
        active
    } else {
        match steps[0] {
            Step::Indicator { active: a } => indicator_after(a, steps.drop_first()),
            Step::Command(_) => indicator_after(active, steps.drop_first()),
        }
    }
}

/// Performing `steps` from state `active`, every command that changes the
/// chip's contents is issued while the indicator is active.
pub open spec fn indicated(active: bool, steps: Seq<Step>) -> bool
    decreases steps.len(),
{
    if steps.len() == 0 {
        true
    } else {
        match steps[0] {
            Step::Indicator { active: a } => indicated(a, steps.drop_first()),
            Step::Command(c) => (needs_indicator(c) ==> active) && indicated(
                active,
                steps.drop_first(),
            ),
        }
    }
}

/// Every plan the session hands out leaves the indicator inactive when it
/// started inactive, and runs each erase or write with the indicator active.
pub proof fn lemma_indicator_restored(c: FlashCommand)
    ensures
        indicator_after(false, bracketed(c)) == false,
        indicated(false, bracketed(c)),
        indicator_after(false, identify_plan()) == false,
        indicated(false, identify_plan()),
{
    reveal_with_fuel(indicator_after, 4);
    reveal_with_fuel(indicated, 4);
    let b = bracketed(c);
    assert(b.drop_first().drop_first().drop_first() =~= Seq::<Step>::empty());
    let p = identify_plan();
    assert(p.drop_first().drop_first() =~= Seq::<Step>::empty());
}

/// Stage of a session's lifecycle.
#[derive(Clone, Copy, Debug, PartialEq, Eq, Structural)]
pub enum Phase {
    Uninitialized,
    Ready,
    Terminated,
}

/// Lifecycle of one session. The chip handle is held only while ready.
enum SessionState {
    Uninitialized,
    Ready(NarrowFlash),
    Terminated,
}

/// One run of the programming algorithm, from initialization to teardown.
pub struct Session {
    state: SessionState,
}

fn bracket(c: FlashCommand) -> (r: Vec<Step>)
    ensures
        r@ == bracketed(c),
{
    let r = vec![Step::Indicator { active: true }, Step::Command(c), Step::Indicator { active: false }];
    assert(r@ =~= bracketed(c));
    r
}

impl Session {
    pub closed spec fn phase(&self) -> Phase {
        match self.state {
            SessionState::Uninitialized => Phase::Uninitialized,
            SessionState::Ready(_) => Phase::Ready,
            SessionState::Terminated => Phase::Terminated,
        }
    }

    pub fn new() -> (r: Session)
        ensures
            r.phase() == Phase::Uninitialized,
    {
        Session { state: SessionState::Uninitialized }
    }

    pub fn is_ready(&self) -> (r: bool)
        ensures
            r == (self.phase() == Phase::Ready),
    {
        match self.state {
            SessionState::Ready(_) => true,
            _ => false,
        }
    }

    /// Steps to perform before [`Session::initialize`]: its identifier
    /// argument is what the read command returned. Nothing once initialized.
    pub fn identify_steps(&self) -> (r: Vec<Step>)
        ensures
            r@ == (if self.phase() == Phase::Uninitialized { identify_plan() } else { Seq::empty() }),
    {
        match self.state {
            SessionState::Uninitialized => {
                let r = vec![Step::Indicator { active: false }, Step::Command(FlashCommand::ReadId)];
                assert(r@ =~= identify_plan());
                r
            },
            _ => Vec::new(),
        }
    }

    /// Accepts the chip when its first identifier byte is the expected
    /// vendor's. The target address, clock and function the host tool passes
    /// are taken as given. A mismatch ends the session and keeps no handle.
    pub fn initialize(&mut self, _address: u32, _clock: u32, _function: Function, id: [u8; 3]) -> (r:
        Result<(), FlashError>)
        ensures
            old(self).phase() == Phase::Uninitialized ==> {
                &&& (r is Ok <==> id@[0] == VENDOR_ID)
                &&& (r is Ok ==> final(self).phase() == Phase::Ready)
                &&& (r is Err ==> r == Err::<(), FlashError>(FlashError::DeviceMismatch { id: id@[0] })
                    && final(self).phase() == Phase::Terminated)
                &&& (r matches Err(e) ==> error_code(e) == id@[0] as u32)
            },
            !(old(self).phase() == Phase::Uninitialized) ==> r == Err::<(), FlashError>(FlashError::InvalidState)
                && final(self).phase() == old(self).phase(),
    {
        match self.state {
            SessionState::Uninitialized => {},
            _ => return Err(FlashError::InvalidState),
        }
        let first = id[0];
        if first != VENDOR_ID {
            self.state = SessionState::Terminated;
            return Err(FlashError::DeviceMismatch { id: first });
        }
        self.state = SessionState::Ready(NarrowFlash::new());
        Ok(())
    }

    /// Erases the whole chip.
    pub fn erase_all(&mut self) -> (r: Result<Vec<Step>, FlashError>)
        ensures
            final(self).phase() == old(self).phase(),
            r is Ok <==> old(self).phase() == Phase::Ready,
            r matches Ok(s) ==> s@ == bracketed(FlashCommand::EraseChip),
            r matches Err(e) ==> e == FlashError::InvalidState,
    {
        match &self.state {
            SessionState::Ready(flash) => Ok(bracket(flash.erase_chip())),
            _ => Err(FlashError::InvalidState),
        }
    }

    /// Erases the sector at absolute address `addr`; the driver gets the
    /// offset from the start of the mapped window.
    pub fn erase_sector(&mut self, addr: u32) -> (r: Result<Vec<Step>, FlashError>)
        ensures
            final(self).phase() == old(self).phase(),
            r is Ok <==> old(self).phase() == Phase::Ready && in_window(addr as int),
            r matches Ok(s) ==> s@ == bracketed(
                FlashCommand::EraseSector { offset: (addr - FLASH_BASE) as u32 },
            ),
            !(old(self).phase() == Phase::Ready) ==> r == Err::<Vec<Step>, FlashError>(FlashError::InvalidState),
            old(self).phase() == Phase::Ready && !in_window(addr as int) ==> r == Err::<Vec<Step>, FlashError>(
                FlashError::AddressOutOfRange { address: addr },
            ),
    {
        match &self.state {
            SessionState::Ready(flash) => match relative_offset(addr) {
                Some(offset) => Ok(bracket(flash.erase_sector(offset))),
                None => Err(FlashError::AddressOutOfRange { address: addr }),
            },
            _ => Err(FlashError::InvalidState),
        }
    }

    /// Writes `data` at absolute address `addr` in a single driver call
    /// covering all of it. Keeping `data` within the page size is up to the
    /// host tool; it must not run past the end of the window.
    pub fn program_page(&mut self, addr: u32, data: &[u8]) -> (r: Result<Vec<Step>, FlashError>)
        ensures
            final(self).phase() == old(self).phase(),
            r is Ok <==> old(self).phase() == Phase::Ready && span_in_window(addr as int, data@.len() as int),
            r matches Ok(s) ==> s@ == bracketed(
                FlashCommand::Write { offset: (addr - FLASH_BASE) as u32, len: data@.len() as usize },
            ),
            !(old(self).phase() == Phase::Ready) ==> r == Err::<Vec<Step>, FlashError>(FlashError::InvalidState),
            old(self).phase() == Phase::Ready && !span_in_window(addr as int, data@.len() as int) ==> r == Err::<
                Vec<Step>,
                FlashError,
            >(FlashError::AddressOutOfRange { address: addr }),
    {
        match &self.state {
            SessionState::Ready(flash) => match span_offset(addr, data.len()) {
                Some(offset) => Ok(bracket(flash.write(offset, data.len()))),
                None => Err(FlashError::AddressOutOfRange { address: addr }),
            },
            _ => Err(FlashError::InvalidState),
        }
    }

    /// Ends the session, giving up the chip handle.
    pub fn teardown(&mut self)
        ensures
            final(self).phase() == Phase::Terminated,
    {
        self.state = SessionState::Terminated;
    }
}

} // verus!
