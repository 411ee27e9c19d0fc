//! # Flash Controller (FLC)
//!
//! Address and page arithmetic of the internal flash, the rule that flash
//! cells only go from 1 to 0 without an erase, and the write and erase
//! protocols of the controller as sessions (see [`session`]).
use vstd::prelude::*;

use crate::gcr::clocks::{Clock, SystemClock};

pub mod laws;
pub mod model;
pub mod session;

pub use session::{FlashAction, FlashEvent, FlashOp, FlashSession, Stage};

verus! {

/// Base address of the flash memory.
pub const FLASH_BASE: u32 = 0x1000_0000;
/// Size of the flash memory.
pub const FLASH_SIZE: u32 = 0x0008_0000;
/// End address of the flash memory.
pub const FLASH_END: u32 = FLASH_BASE + FLASH_SIZE;
/// Number of flash pages.
pub const FLASH_PAGE_COUNT: u32 = 64;
/// Size of a flash page.
pub const FLASH_PAGE_SIZE: u32 = 0x2000;

/// The value of every 32-bit word of an erased page.
pub const ERASED: u32 = 0xFFFF_FFFF;

/// Flash controller errors.
#[derive(Debug, Clone, Copy, PartialEq, Eq, Structural)]
pub enum FlashError {
    /// The target address to write or erase is invalid.
    InvalidAddress,
    /// The page number is invalid
    InvalidPage,
    /// The flash controller was busy or locked when attempting to write or erase.
    AccessViolation,
    /// Writing over the old data with new data would cause 0 -> 1 bit transitions.
    /// The target address must be erased before writing new data.
    NeedsErase,
}

/// The address lies in the flash memory.
pub open spec fn in_flash(address: u32) -> bool {
    FLASH_BASE <= address < FLASH_END
}

/// The page that holds a flash address.
pub open spec fn page_of(address: u32) -> int {
    (address - FLASH_BASE) / (FLASH_PAGE_SIZE as int)
}

/// The first address of a page.
pub open spec fn page_start(page: int) -> int {
    FLASH_BASE + FLASH_PAGE_SIZE * page
}

/// The address is a multiple of 16 (one 128-bit flash word).
pub open spec fn aligned_128(address: u32) -> bool {
    address % 16 == 0
}

/// The address is a multiple of 4 (one 32-bit word).
pub open spec fn aligned_32(address: u32) -> bool {
    address % 4 == 0
}

proof fn lemma_page_bits(address: u32)
    requires
        in_flash(address),
    ensures
        (address >> 13u32) & 63u32 == page_of(address),
        page_of(address) < FLASH_PAGE_COUNT,
{
    assert(0x1000_0000 <= address < 0x1008_0000 ==> (address >> 13u32) & 63u32 == (address
        - 0x1000_0000) / 0x2000) by (bit_vector);
}

pub(crate) proof fn lemma_mask_alignment(address: u32)
    ensures
        (address & 0b1111u32 == 0) == (address % 16 == 0),
        (address & 0b11u32 == 0) == (address % 4 == 0),
{
    assert((address & 0b1111u32 == 0) == (address % 16 == 0)) by (bit_vector);
    assert((address & 0b11u32 == 0) == (address % 4 == 0)) by (bit_vector);
}

/// A flash word holding `old` can be programmed to `new` without an erase:
/// programming only clears bits, so `new` may hold a 1 only where `old`
/// does.
pub open spec fn programmable(old: u32, new: u32) -> bool {
    old & new == new
}

/// The offset of a flash address from the start of the flash: what the
/// controller's address register takes.
pub open spec fn physical_of(address: u32) -> int {
    address - FLASH_BASE
}

/// The 128-bit-aligned address of the flash word that holds `address`.
pub open spec fn quad_of(address: u32) -> int {
    address - address as int % 16
}

/// The index of the 32-bit lane that `address` names in its 128-bit word.
pub open spec fn lane_of(address: u32) -> int {
    (address as int % 16) / 4
}

/// A 128-bit word with one 32-bit lane replaced.
pub open spec fn with_lane(quad: [u32; 4], lane: int, word: u32) -> [u32; 4] {
    [
        if lane == 0 { word } else { quad[0] },
        if lane == 1 { word } else { quad[1] },
        if lane == 2 { word } else { quad[2] },
        if lane == 3 { word } else { quad[3] },
    ]
}

/// Checks that a flash word holding `old` can take `new` without an erase.
pub fn can_program(old: u32, new: u32) -> (r: bool)
    ensures
        r == programmable(old, new),
{
    old & new == new
}

/// The offset of a flash address from the start of the flash.
pub fn physical_address(address: u32) -> (r: u32)
    requires
        in_flash(address),
    ensures
        r == physical_of(address),
{
    assert(0x1000_0000 <= address < 0x1008_0000 ==> address & 0x7_FFFFu32 == address
        - 0x1000_0000) by (bit_vector);
    address & (FLASH_SIZE - 1)
}

/// The 128-bit-aligned address of the flash word that holds `address`.
pub fn quad_address(address: u32) -> (r: u32)
    ensures
        r == quad_of(address),
        aligned_128(r),
{
    assert(address & !0b1111u32 == address - address % 16) by (bit_vector);
    assert((address & !0b1111u32) % 16 == 0) by (bit_vector);
    address & !0b1111
}

/// Replaces the 32-bit lane that `address` names in the 128-bit word `quad`.
pub fn splice_word(quad: [u32; 4], address: u32, word: u32) -> (r: [u32; 4])
    ensures
        r == with_lane(quad, lane_of(address), word),
        r@ == quad@.update(lane_of(address), word),
{
    assert((address & 0b1100u32) >> 2u32 == (address % 16) / 4) by (bit_vector);
    let lane = ((address & 0b1100) >> 2) as usize;
    let mut spliced = quad;
    spliced[lane] = word;
    assert(spliced =~= with_lane(quad, lane_of(address), word));
    spliced
}

/// Which protection a page lock bit gives.
#[derive(Debug, Clone, Copy, PartialEq, Eq, Structural)]
pub enum LockKind {
    /// No writes or erases (the write/erase lock registers).
    Write,
    /// No reads (the read lock registers).
    Read,
}

/// One bit of the 64-bit page lock bitmap, held in two 32-bit registers:
/// pages 0 to 31 in the first, pages 32 to 63 in the second. The owner of the
/// hardware writes `mask` to the register and waits until the register
/// reads the bit set.
#[derive(Debug, Clone, Copy, PartialEq, Eq, Structural)]
pub struct PageLock {
    /// The protection the bit gives.
    pub kind: LockKind,
    /// Which of the two registers: 0 or 1.
    pub register: u8,
    /// The bit to set in it.
    pub mask: u32,
}

impl PageLock {
    /// The lock bit of a page.
    pub open spec fn spec_for(kind: LockKind, page: int) -> PageLock {
        PageLock {
            kind,
            register: if page < 32 { 0 } else { 1 },
            mask: (1u32 << (if page < 32 { page } else { page - 32 }) as u32),
        }
    }

    /// The lock bit of a page.
    pub fn for_page(kind: LockKind, page: u32) -> (r: PageLock)
        requires
            page < FLASH_PAGE_COUNT,
        ensures
            r == PageLock::spec_for(kind, page as int),
    {
        if page < 32 {
            PageLock { kind, register: 0, mask: 1u32 << page }
        } else {
            PageLock { kind, register: 1, mask: 1u32 << (page - 32) }
        }
    }
}

/// The divisor that brings the system clock to the 1 MHz the controller
/// times its operations with, rounded down.
pub open spec fn clock_divisor_for(frequency: u32) -> int {
    frequency as int / 1_000_000
}

/// The fields of the controller's status that make it busy.
#[derive(Debug, Clone, Copy, PartialEq, Eq, Structural)]
pub struct ControllerStatus {
    /// An operation is pending.
    pub pending: bool,
    /// A page erase is in progress.
    pub page_erase: bool,
    /// A mass erase is in progress.
    pub mass_erase: bool,
    /// A write is in progress.
    pub write: bool,
}

/// # Flash Controller (FLC) Peripheral
///
/// The flash controller manages read, write, and erase accesses to the
/// internal flash: 512 KiB in 64 pages of 8192 bytes, written 128 bits at a
/// time, with page erase and read and write protection.
///
/// Writes and erases are sessions ([`FlashSession`]): the owner of the
/// hardware performs the actions a session asks for and hands back what it
/// observed, until the session finishes.
pub struct Flc {
    sys_clk: Clock<SystemClock>,
    clkdiv: u8,
}

impl Flc {
    /// The divisor written to the controller's clock divider.
    pub closed spec fn spec_clock_divisor(&self) -> u8 {
        self.clkdiv
    }

    /// Construct a new flash controller for the given system clock. The
    /// divider register has eight bits, which bounds the clock frequency.
    pub fn new(sys_clk: Clock<SystemClock>) -> (r: Self)
        requires
            clock_divisor_for(sys_clk.spec_frequency()) < 256,
        ensures
            r.spec_clock_divisor() == clock_divisor_for(sys_clk.spec_frequency()),
    {
        let clkdiv = (sys_clk.frequency() / 1_000_000) as u8;
        Flc { sys_clk, clkdiv }
    }

    /// The divisor written to the controller's clock divider: the system
    /// clock frequency in MHz, rounded down.
    pub fn clock_divisor(&self) -> (r: u8)
        ensures
            r == self.spec_clock_divisor(),
    {
        self.clkdiv
    }

    /// Check if the flash controller is busy.
    pub fn is_busy(&self, status: &ControllerStatus) -> (r: bool)
        ensures
            r == (status.pending || status.page_erase || status.mass_erase || status.write),
    {
        status.pending || status.page_erase || status.mass_erase || status.write
    }

    /// Check if an address is within the valid flash memory range.
    pub fn check_address(&self, address: u32) -> (r: Result<(), FlashError>)
        ensures
            r is Ok <==> in_flash(address),
            r is Err ==> r == Err::<(), FlashError>(FlashError::InvalidAddress),
    {
        if address < FLASH_BASE || address >= FLASH_END {
            return Err(FlashError::InvalidAddress);
        }
        Ok(())
    }

    /// Check if a page number names one of the flash pages.
    pub fn check_page_number(&self, page_number: u32) -> (r: Result<(), FlashError>)
        ensures
            r is Ok <==> page_number < FLASH_PAGE_COUNT,
            r is Err ==> r == Err::<(), FlashError>(FlashError::InvalidPage),
    {
        if page_number >= FLASH_PAGE_COUNT {
            return Err(FlashError::InvalidPage);
        }
        Ok(())
    }

    /// The base address of a page.
    pub fn get_address(&self, page_number: u32) -> (r: Result<u32, FlashError>)
        ensures
            page_number < FLASH_PAGE_COUNT ==> r == Ok::<u32, FlashError>(
                page_start(page_number as int) as u32,
            ),
            page_number >= FLASH_PAGE_COUNT ==> r == Err::<u32, FlashError>(FlashError::InvalidPage),
    {
        self.check_page_number(page_number)?;
        Ok(FLASH_BASE + FLASH_PAGE_SIZE * page_number)
    }

    /// The page number of a flash address.
    pub fn get_page_number(&self, address: u32) -> (r: Result<u32, FlashError>)
        ensures
            in_flash(address) ==> r == Ok::<u32, FlashError>(page_of(address) as u32),
            !in_flash(address) ==> r == Err::<u32, FlashError>(FlashError::InvalidAddress),
    {
        self.check_address(address)?;
        proof {
            lemma_page_bits(address);
        }
        let page_num = (address >> 13) & (FLASH_PAGE_COUNT - 1);
        // A shift and mask that went wrong would be caught here.
        if page_num >= FLASH_PAGE_COUNT {
            return Err(FlashError::InvalidAddress);
        }
        Ok(page_num)
    }


    /// A fresh session of an operation on the controller.
    pub open spec fn session_for(&self, op: FlashOp, address: u32, data: [u32; 4]) -> FlashSession {
        FlashSession {
            op,
            address,
            data,
            clkdiv: self.spec_clock_divisor(),
            stage: Stage::Start,
        }
    }

    /// Writes four [`u32`] to flash memory, lowest word at the lowest
    /// address. The target address must be 128-bit aligned: the session
    /// finishes with `InvalidAddress` otherwise, before any other action. It
    /// finishes with `NeedsErase`, before anything is written, when the data
    /// would set a bit that the flash holds cleared.
    pub fn write_128(&self, address: u32, data: &[u32; 4]) -> (r: FlashSession)
        ensures
            r == self.session_for(FlashOp::Write128, address, *data),
            r.wf(),
    {
        FlashSession {
            op: FlashOp::Write128,
            address,
            data: *data,
            clkdiv: self.clkdiv,
            stage: Stage::Start,
        }
    }

    /// Writes a [`u32`] to flash memory. The target address must be 32-bit
    /// aligned. Flash is written 128 bits at a time: the session reads the
    /// 128-bit word that holds the target, replaces the one lane, and writes
    /// the whole word back, with the hazard check over all four lanes.
    pub fn write_32(&self, address: u32, data: u32) -> (r: FlashSession)
        ensures
            r == self.session_for(FlashOp::Write32(data), address, [ERASED, ERASED, ERASED, ERASED]),
            r.wf(),
    {
        FlashSession {
            op: FlashOp::Write32(data),
            address,
            data: [ERASED, ERASED, ERASED, ERASED],
            clkdiv: self.clkdiv,
            stage: Stage::Start,
        }
    }

    /// Erases the page of flash memory that holds `address`.
    ///
    /// The commit must not run from the flash being erased: the code that
    /// performs the session's actions has to execute from elsewhere (RAM),
    /// and must not erase the page holding the executing code.
    pub fn erase_page(&self, address: u32) -> (r: FlashSession)
        ensures
            r == self.session_for(FlashOp::Erase, address, [ERASED, ERASED, ERASED, ERASED]),
            r.wf(),
    {
        FlashSession {
            op: FlashOp::Erase,
            address,
            data: [ERASED, ERASED, ERASED, ERASED],
            clkdiv: self.clkdiv,
            stage: Stage::Start,
        }
    }

    /// Checks the address of a 128-bit read: in the flash and 128-bit
    /// aligned. The read itself is a plain load from that address.
    pub fn check_read_128(&self, address: u32) -> (r: Result<(), FlashError>)
        ensures
            r is Ok <==> in_flash(address) && aligned_128(address),
            r is Err ==> r == Err::<(), FlashError>(FlashError::InvalidAddress),
    {
        proof {
            lemma_mask_alignment(address);
        }
        if address & 0b1111 != 0 {
            return Err(FlashError::InvalidAddress);
        }
        self.check_address(address)
    }

    /// Checks the address of a 32-bit read: in the flash and 32-bit aligned.
    /// The read itself is a plain load from that address.
    pub fn check_read_32(&self, address: u32) -> (r: Result<(), FlashError>)
        ensures
            r is Ok <==> in_flash(address) && aligned_32(address),
            r is Err ==> r == Err::<(), FlashError>(FlashError::InvalidAddress),
    {
        proof {
            lemma_mask_alignment(address);
        }
        if address & 0b11 != 0 {
            return Err(FlashError::InvalidAddress);
        }
        self.check_address(address)
    }

    /// The lock bit that protects the page holding `address` from writes and
    /// erases, until the next external or power-on reset.
    pub fn disable_page_write(&self, address: u32) -> (r: Result<PageLock, FlashError>)
        ensures
            in_flash(address) ==> r == Ok::<PageLock, FlashError>(
                PageLock::spec_for(LockKind::Write, page_of(address)),
            ),
            !in_flash(address) ==> r == Err::<PageLock, FlashError>(FlashError::InvalidAddress),
    {
        let page = self.get_page_number(address)?;
        Ok(PageLock::for_page(LockKind::Write, page))
    }

    /// The lock bit that protects the page holding `address` from reads,
    /// until the next external or power-on reset.
    pub fn disable_page_read(&self, address: u32) -> (r: Result<PageLock, FlashError>)
        ensures
            in_flash(address) ==> r == Ok::<PageLock, FlashError>(
                PageLock::spec_for(LockKind::Read, page_of(address)),
            ),
            !in_flash(address) ==> r == Err::<PageLock, FlashError>(FlashError::InvalidAddress),
    {
        let page = self.get_page_number(address)?;
        Ok(PageLock::for_page(LockKind::Read, page))
    }
}

} // verus!
