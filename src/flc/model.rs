//! A model of the flash and of the controller registers that the sessions
//! drive, as the controller's documentation describes them: programming only
//! clears bits, a page erase sets every bit of the page, and a write or erase
//! committed while the controller is locked is refused and raises the
//! access-fault flag.
use vstd::prelude::*;

use super::session::{FlashAction, FlashEvent, FlashSession};
use super::{ERASED, FLASH_BASE, FLASH_END, FLASH_PAGE_SIZE, FlashError};

verus! {

/// The flash contents and the controller registers.
pub struct FlashDevice {
    /// The 32-bit word stored at each address.
    pub memory: spec_fn(int) -> u32,
    /// The target address register (an offset into the flash).
    pub address: u32,
    /// The four data registers.
    pub data: [u32; 4],
    /// The controller is unlocked.
    pub unlocked: bool,
    /// The page erase code is written.
    pub erase_code: bool,
    /// The access-fault flag.
    pub fault: bool,
}

/// Two addresses lie in the same flash page.
pub open spec fn same_page(x: int, y: int) -> bool {
    &&& FLASH_BASE <= x < FLASH_END
    &&& FLASH_BASE <= y < FLASH_END
    &&& (x - FLASH_BASE) / (FLASH_PAGE_SIZE as int) == (y - FLASH_BASE) / (FLASH_PAGE_SIZE as int)
}

/// What performing an action does to the device, and what it answers.
pub open spec fn perform(dev: FlashDevice, action: FlashAction) -> (FlashDevice, FlashEvent) {
    match action {
        FlashAction::ReadWord(x) => (dev, FlashEvent::Word((dev.memory)(x as int))),
        FlashAction::ReadFault => (dev, FlashEvent::Fault(dev.fault)),
        FlashAction::ClearFault => (FlashDevice { fault: false, ..dev }, FlashEvent::Done),
        FlashAction::SetAddress(a) => (FlashDevice { address: a, ..dev }, FlashEvent::Done),
        FlashAction::LoadData(d) => (FlashDevice { data: d, ..dev }, FlashEvent::Done),
        FlashAction::Unlock => (FlashDevice { unlocked: true, ..dev }, FlashEvent::Done),
        FlashAction::Lock => (FlashDevice { unlocked: false, ..dev }, FlashEvent::Done),
        FlashAction::SetEraseCode => (FlashDevice { erase_code: true, ..dev }, FlashEvent::Done),
        FlashAction::CommitWrite => if dev.unlocked {
            let start = FLASH_BASE + dev.address;
            let memory = |x: int|
                if start <= x < start + 16 && (x - start) % 4 == 0 {
                    dev.data[(x - start) / 4] & (dev.memory)(x)
                } else {
                    (dev.memory)(x)
                };
            (FlashDevice { memory, ..dev }, FlashEvent::Done)
        } else {
            (FlashDevice { fault: true, ..dev }, FlashEvent::Done)
        },
        FlashAction::CommitErase => if dev.unlocked && dev.erase_code {
            let target = FLASH_BASE + dev.address;
            let memory = |x: int|
                if same_page(x, target) {
                    ERASED
                } else {
                    (dev.memory)(x)
                };
            (FlashDevice { memory, erase_code: false, ..dev }, FlashEvent::Done)
        } else {
            (FlashDevice { fault: true, ..dev }, FlashEvent::Done)
        },
        _ => (dev, FlashEvent::Done),
    }
}

/// How a session that ran against the device ended.
pub struct Outcome {
    /// The session's result.
    pub result: Result<(), FlashError>,
    /// The device afterwards.
    pub device: FlashDevice,
}

/// Runs a session against the device, starting with `event`, for at most
/// `fuel` actions: its result and the device afterwards, or `None` if the
/// session had not finished by then.
pub open spec fn drive(s: FlashSession, dev: FlashDevice, event: FlashEvent, fuel: nat) -> Option<
    Outcome,
>
    decreases fuel,
{
    if fuel == 0 {
        None
    } else {
        let (t, a) = s.next(event);
        match a {
            FlashAction::Finish(r) => Some(Outcome { result: r, device: dev }),
            _ => {
                let (d, e) = perform(dev, a);
                drive(t, d, e, (fuel - 1) as nat)
            },
        }
    }
}

} // verus!
