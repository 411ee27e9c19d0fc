//! Properties of the flash controller that relate several of its operations.
use vstd::prelude::*;

use super::model::{FlashDevice, Outcome, drive, perform, same_page};
use super::session::{FlashAction, FlashEvent, FlashOp, FlashSession, Stage, answers};
use super::{
    ERASED, FLASH_BASE, FlashError, Flc, aligned_128, aligned_32, in_flash, lane_of, page_of, page_start,
    physical_of, programmable, quad_of, with_lane,
};

verus! {

/// The actions a session asks for when it is handed these answers in turn.
pub open spec fn run(s: FlashSession, events: Seq<FlashEvent>) -> Seq<FlashAction>
    decreases events.len(),
{
    if events.len() == 0 {
        Seq::empty()
    } else {
        let (t, a) = s.next(events[0]);
        seq![a] + run(t, events.drop_first())
    }
}

/// The state a session is in after these answers.
pub open spec fn run_state(s: FlashSession, events: Seq<FlashEvent>) -> FlashSession
    decreases events.len(),
{
    if events.len() == 0 {
        s
    } else {
        run_state(s.next(events[0]).0, events.drop_first())
    }
}

/// Page and address conversion round-trips: the first address of the page
/// of a flash address lies in the flash and in that same page.
pub proof fn lemma_page_round_trip(address: u32)
    requires
        in_flash(address),
    ensures
        in_flash(page_start(page_of(address)) as u32),
        page_start(page_of(address)) == page_start(page_of(address)) as u32,
        page_of(page_start(page_of(address)) as u32) == page_of(address),
{
    let p = page_of(address);
    assert(0 <= p < 64);
    assert(page_start(p) - 0x1000_0000 == 0x2000 * p);
    assert((0x2000 * p) / 0x2000 == p) by (nonlinear_arith)
        requires
            0 <= p,
    ;
}

/// Every operation that takes an address rejects an address outside the
/// flash with `InvalidAddress`; a session does so with its first action,
/// before it asks for anything else.
pub proof fn lemma_outside_flash_rejected(
    flc: &Flc,
    op: FlashOp,
    address: u32,
    data: [u32; 4],
    event: FlashEvent,
)
    requires
        !in_flash(address),
    ensures
        flc.session_for(op, address, data).next(event).1 == FlashAction::Finish(
            Err(FlashError::InvalidAddress),
        ),
        flc.session_for(op, address, data).next(event).0.finished(),
{
}

/// An unaligned write (not a multiple of 16 for 128 bits, of 4 for 32 bits)
/// fails with `InvalidAddress` as the session's first action, so nothing is
/// written to the controller.
pub proof fn lemma_unaligned_write_rejected(
    flc: &Flc,
    address: u32,
    word: u32,
    data: [u32; 4],
    event: FlashEvent,
)
    ensures
        !aligned_128(address) ==> flc.session_for(FlashOp::Write128, address, data).next(event).1
            == FlashAction::Finish(Err(FlashError::InvalidAddress)),
        !aligned_32(address) ==> flc.session_for(FlashOp::Write32(word), address, data).next(
            event,
        ).1 == FlashAction::Finish(Err(FlashError::InvalidAddress)),
{
}

/// A session whose address is outside the flash or lacks the alignment its
/// operation needs (16 bytes for a 128-bit write, 4 for a 32-bit write)
/// finishes with `InvalidAddress` and leaves the device exactly as it was.
pub proof fn lemma_invalid_target_leaves_device(
    flc: &Flc,
    op: FlashOp,
    address: u32,
    data: [u32; 4],
    dev: FlashDevice,
    fuel: nat,
)
    requires
        !flc.session_for(op, address, data).valid_target(),
        fuel > 0,
    ensures
        drive(flc.session_for(op, address, data), dev, FlashEvent::Done, fuel) == Some(
            Outcome { result: Err(FlashError::InvalidAddress), device: dev },
        ),
{
}

/// Erased flash (all ones) can take any data; cleared flash (all zeros)
/// cannot take all ones.
pub proof fn lemma_hazard_on_erased_and_cleared(new: u32)
    ensures
        programmable(ERASED, new),
        !programmable(0, ERASED),
{
    assert(0xFFFF_FFFFu32 & new == new) by (bit_vector);
    assert(0u32 & 0xFFFF_FFFFu32 != 0xFFFF_FFFFu32) by (bit_vector);
}

/// In the hazard check, an old word of all ones never stops a write, and an
/// old word of all zeros under new data of all ones stops it with
/// `NeedsErase`, whichever lane it is.
pub proof fn lemma_hazard_check(s: FlashSession, lane: u32)
    requires
        s.wf(),
        s.stage == Stage::Checking(lane),
    ensures
        s.next(FlashEvent::Word(ERASED)).1 != FlashAction::Finish(Err(FlashError::NeedsErase)),
        s.data[lane as int] == ERASED ==> s.next(FlashEvent::Word(0)).1 == FlashAction::Finish(
            Err(FlashError::NeedsErase),
        ),
{
    lemma_hazard_on_erased_and_cleared(s.data[lane as int]);
}

/// No session finishes with the controller unlocked: once it has unlocked
/// the controller, the only way on is to lock it again.
pub proof fn lemma_locked_at_finish(s: FlashSession, event: FlashEvent)
    requires
        s.wf(),
        answers(s.stage, event),
    ensures
        s.next(event).1 is Finish ==> !s.next(event).0.unlocked(),
        s.unlocked() ==> !(s.next(event).1 is Finish),
        s.unlocked() ==> s.next(event).0.unlocked() || s.next(event).1 == FlashAction::Lock,
{
}

/// Every step keeps a session in a stage its operation has.
pub proof fn lemma_next_wf(s: FlashSession, event: FlashEvent)
    requires
        s.wf(),
        answers(s.stage, event),
    ensures
        s.next(event).0.wf(),
{
    let a = s.address;
    assert(a % 16 == 0 ==> a % 4 == 0);
    assert(in_flash(a) ==> in_flash(quad_of(a) as u32) && aligned_128(quad_of(a) as u32));
}

/// Run against the device from a locked controller, every session ends
/// with the controller locked, whatever its result and whatever the device
/// answers on the way.
pub proof fn lemma_drive_ends_locked(
    s: FlashSession,
    dev: FlashDevice,
    event: FlashEvent,
    fuel: nat,
)
    requires
        s.wf(),
        answers(s.stage, event),
        dev.unlocked == s.unlocked(),
    ensures
        drive(s, dev, event, fuel) is Some ==> !drive(s, dev, event, fuel)->0.device.unlocked,
    decreases fuel,
{
    if fuel > 0 {
        let (t, a) = s.next(event);
        lemma_locked_at_finish(s, event);
        if !(a is Finish) {
            let (d, e) = perform(dev, a);
            lemma_next_wf(s, event);
            lemma_drive_ends_locked(t, d, e, (fuel - 1) as nat);
        }
    }
}

/// A 32-bit write reads the 128-bit word around its target and goes on to
/// write that word with only the target's lane replaced; the other lanes
/// keep their value, which always passes the hazard check.
pub proof fn lemma_write_32_splices(flc: &Flc, address: u32, word: u32, quad: [u32; 4])
    requires
        in_flash(address),
        aligned_32(address),
    ensures
        ({
            let s = flc.session_for(FlashOp::Write32(word), address, [ERASED, ERASED, ERASED, ERASED]);
            let events = seq![
                FlashEvent::Done,
                FlashEvent::Word(quad[0]),
                FlashEvent::Word(quad[1]),
                FlashEvent::Word(quad[2]),
                FlashEvent::Word(quad[3]),
            ];
            let t = run_state(s, events);
            &&& run(s, events) == seq![
                FlashAction::ReadWord(quad_of(address) as u32),
                FlashAction::ReadWord((quad_of(address) + 4) as u32),
                FlashAction::ReadWord((quad_of(address) + 8) as u32),
                FlashAction::ReadWord((quad_of(address) + 12) as u32),
                FlashAction::WaitIdle,
            ]
            &&& t.op == FlashOp::Write128
            &&& t.address == quad_of(address)
            &&& t.data == with_lane(quad, lane_of(address), word)
            &&& forall|j: int| 0 <= j < 4 && j != lane_of(address) ==> t.data[j] == quad[j]
                && programmable(quad[j], t.data[j])
        }),
{
    let s = flc.session_for(FlashOp::Write32(word), address, [ERASED, ERASED, ERASED, ERASED]);
    let events = seq![
        FlashEvent::Done,
        FlashEvent::Word(quad[0]),
        FlashEvent::Word(quad[1]),
        FlashEvent::Word(quad[2]),
        FlashEvent::Word(quad[3]),
    ];
    reveal_with_fuel(run, 6);
    reveal_with_fuel(run_state, 6);
    assert(events.drop_first().drop_first().drop_first().drop_first().drop_first().len() == 0);
    assert forall|x: u32| #[trigger] programmable(x, x) by {
        assert(x & x == x) by (bit_vector);
    }
    assert(with_lane(with_lane(with_lane(with_lane([ERASED, ERASED, ERASED, ERASED], 0, quad[0]), 1, quad[1]), 2, quad[2]), 3, quad[3]) =~= quad);
}


/// A write of 128 bits at a valid address, over old words that the new data
/// only clears bits of, with no fault before or after, asks for exactly the
/// protocol: wait until idle, set the clock divisor, check for a stale fault,
/// read the four old words, set the address, load the data, unlock, commit,
/// lock, check for a fault, and finish with success.
pub proof fn lemma_write_128_protocol(flc: &Flc, address: u32, data: [u32; 4], old: [u32; 4])
    requires
        in_flash(address),
        aligned_128(address),
        forall|j: int| 0 <= j < 4 ==> programmable(#[trigger] old[j], data[j]),
    ensures
        ({
            let s = flc.session_for(FlashOp::Write128, address, data);
            let events = seq![
                FlashEvent::Done,
                FlashEvent::Done,
                FlashEvent::Done,
                FlashEvent::Fault(false),
                FlashEvent::Word(old[0]),
                FlashEvent::Word(old[1]),
                FlashEvent::Word(old[2]),
                FlashEvent::Word(old[3]),
                FlashEvent::Done,
                FlashEvent::Done,
                FlashEvent::Done,
                FlashEvent::Done,
                FlashEvent::Done,
                FlashEvent::Fault(false),
            ];
            &&& run(s, events) == seq![
                FlashAction::WaitIdle,
                FlashAction::SetClockDivisor(flc.spec_clock_divisor()),
                FlashAction::ReadFault,
                FlashAction::ReadWord(address),
                FlashAction::ReadWord((address + 4) as u32),
                FlashAction::ReadWord((address + 8) as u32),
                FlashAction::ReadWord((address + 12) as u32),
                FlashAction::SetAddress(physical_of(address) as u32),
                FlashAction::LoadData(data),
                FlashAction::Unlock,
                FlashAction::CommitWrite,
                FlashAction::Lock,
                FlashAction::ReadFault,
                FlashAction::Finish(Ok(())),
            ]
            &&& run_state(s, events).stage == Stage::Finished(Ok(()))
        }),
{
    reveal_with_fuel(run, 15);
    reveal_with_fuel(run_state, 15);
    assert(programmable(old[0], data[0]));
    assert(programmable(old[1], data[1]));
    assert(programmable(old[2], data[2]));
    assert(programmable(old[3], data[3]));
}

/// An erase of a page at a valid address with no fault asks for exactly the
/// protocol: wait until idle, set the address, unlock, set the erase code,
/// commit, lock, check for a fault, and finish with success.
pub proof fn lemma_erase_protocol(flc: &Flc, address: u32)
    requires
        in_flash(address),
    ensures
        ({
            let s = flc.session_for(FlashOp::Erase, address, [ERASED, ERASED, ERASED, ERASED]);
            let events = seq![
                FlashEvent::Done,
                FlashEvent::Done,
                FlashEvent::Done,
                FlashEvent::Done,
                FlashEvent::Done,
                FlashEvent::Done,
                FlashEvent::Done,
                FlashEvent::Fault(false),
            ];
            &&& run(s, events) == seq![
                FlashAction::WaitIdle,
                FlashAction::SetAddress(physical_of(address) as u32),
                FlashAction::Unlock,
                FlashAction::SetEraseCode,
                FlashAction::CommitErase,
                FlashAction::Lock,
                FlashAction::ReadFault,
                FlashAction::Finish(Ok(())),
            ]
            &&& run_state(s, events).stage == Stage::Finished(Ok(()))
        }),
{
    reveal_with_fuel(run, 9);
    reveal_with_fuel(run_state, 9);
}


/// Erasing a page at a valid address, with no fault pending, succeeds and
/// leaves every word of the page at all ones.
pub proof fn lemma_erase_clears_page(flc: &Flc, dev: FlashDevice, address: u32)
    requires
        in_flash(address),
        !dev.fault,
    ensures
        ({
            let erase = flc.session_for(FlashOp::Erase, address, [ERASED, ERASED, ERASED, ERASED]);
            let erased = drive(erase, dev, FlashEvent::Done, 9);
            &&& erased is Some
            &&& erased->0.result == Ok::<(), FlashError>(())
            &&& !erased->0.device.fault
            &&& forall|x: int| same_page(x, address as int) ==> (erased->0.device.memory)(x) == ERASED
        }),
{
    reveal_with_fuel(drive, 9);
    assert(FLASH_BASE + physical_of(address) == address);
}

/// The 128-bit write that a 32-bit write at `address` goes on with, once
/// it has read the erased 128-bit word around it.
spec fn spliced_write(flc: &Flc, address: u32, word: u32) -> FlashSession {
    FlashSession {
        op: FlashOp::Write128,
        address: quad_of(address) as u32,
        data: with_lane([ERASED, ERASED, ERASED, ERASED], lane_of(address), word),
        clkdiv: flc.spec_clock_divisor(),
        stage: Stage::Idling,
    }
}

proof fn lemma_gather_erased(flc: &Flc, dev: FlashDevice, address: u32, word: u32, fuel: nat)
    requires
        in_flash(address),
        aligned_32(address),
        fuel >= 5,
        (dev.memory)(quad_of(address)) == ERASED,
        (dev.memory)(quad_of(address) + 4) == ERASED,
        (dev.memory)(quad_of(address) + 8) == ERASED,
        (dev.memory)(quad_of(address) + 12) == ERASED,
    ensures
        drive(
            flc.session_for(FlashOp::Write32(word), address, [ERASED, ERASED, ERASED, ERASED]),
            dev,
            FlashEvent::Done,
            fuel,
        ) == drive(spliced_write(flc, address, word), dev, FlashEvent::Done, (fuel - 5) as nat),
{
    reveal_with_fuel(drive, 6);
    assert(with_lane(with_lane(with_lane(with_lane([ERASED, ERASED, ERASED, ERASED], 0, ERASED), 1, ERASED), 2, ERASED), 3, ERASED) =~= [ERASED, ERASED, ERASED, ERASED]);
}

proof fn lemma_check_erased(flc: &Flc, dev: FlashDevice, address: u32, word: u32, fuel: nat)
    requires
        in_flash(address),
        aligned_32(address),
        fuel >= 7,
        !dev.fault,
        (dev.memory)(quad_of(address)) == ERASED,
        (dev.memory)(quad_of(address) + 4) == ERASED,
        (dev.memory)(quad_of(address) + 8) == ERASED,
        (dev.memory)(quad_of(address) + 12) == ERASED,
    ensures
        drive(spliced_write(flc, address, word), dev, FlashEvent::Done, fuel) == drive(
            spliced_write(flc, address, word).at(Stage::Addressing),
            FlashDevice { address: physical_of(quad_of(address) as u32) as u32, ..dev },
            FlashEvent::Done,
            (fuel - 7) as nat,
        ),
{
    let s = spliced_write(flc, address, word);
    let q = quad_of(address);
    assert(0x1000_0000 <= q < 0x1008_0000);
    assert(programmable(ERASED, word)) by {
        lemma_hazard_on_erased_and_cleared(word);
    }
    assert(programmable(ERASED, ERASED)) by {
        lemma_hazard_on_erased_and_cleared(ERASED);
    }
    assert(forall|j: int| 0 <= j < 4 ==> programmable(ERASED, #[trigger] s.data[j]));
    let e = FlashEvent::Word(ERASED);
    assert(drive(s, dev, FlashEvent::Done, fuel) == drive(
        s.at(Stage::Dividing),
        dev,
        FlashEvent::Done,
        (fuel - 1) as nat,
    ));
    assert(drive(s.at(Stage::Dividing), dev, FlashEvent::Done, (fuel - 1) as nat) == drive(
        s.at(Stage::StaleFault),
        dev,
        FlashEvent::Fault(false),
        (fuel - 2) as nat,
    ));
    assert(drive(s.at(Stage::StaleFault), dev, FlashEvent::Fault(false), (fuel - 2) as nat)
        == drive(s.at(Stage::Checking(0)), dev, e, (fuel - 3) as nat));
    assert(drive(s.at(Stage::Checking(0)), dev, e, (fuel - 3) as nat) == drive(
        s.at(Stage::Checking(1)),
        dev,
        e,
        (fuel - 4) as nat,
    ));
    assert(drive(s.at(Stage::Checking(1)), dev, e, (fuel - 4) as nat) == drive(
        s.at(Stage::Checking(2)),
        dev,
        e,
        (fuel - 5) as nat,
    ));
    assert(drive(s.at(Stage::Checking(2)), dev, e, (fuel - 5) as nat) == drive(
        s.at(Stage::Checking(3)),
        dev,
        e,
        (fuel - 6) as nat,
    ));
    assert(drive(s.at(Stage::Checking(3)), dev, e, (fuel - 6) as nat) == drive(
        s.at(Stage::Addressing),
        FlashDevice { address: physical_of(q as u32) as u32, ..dev },
        FlashEvent::Done,
        (fuel - 7) as nat,
    ));
}

proof fn lemma_commit_spliced(flc: &Flc, dev: FlashDevice, address: u32, word: u32, fuel: nat)
    requires
        in_flash(address),
        aligned_32(address),
        fuel >= 6,
        !dev.fault,
        dev.address == physical_of(quad_of(address) as u32),
        (dev.memory)(address as int) == ERASED,
    ensures
        ({
            let written = drive(
                spliced_write(flc, address, word).at(Stage::Addressing),
                dev,
                FlashEvent::Done,
                fuel,
            );
            &&& written is Some
            &&& written->0.result == Ok::<(), FlashError>(())
            &&& (written->0.device.memory)(address as int) == word
        }),
{
    reveal_with_fuel(drive, 7);
    let q = quad_of(address);
    assert(FLASH_BASE + physical_of(q as u32) == q);
    assert(word & ERASED == word) by (bit_vector);
}

/// Writing a 32-bit word at a valid address whose 128-bit word is erased,
/// with no fault pending, succeeds and leaves the address holding exactly
/// the word written.
pub proof fn lemma_write_32_after_erase(flc: &Flc, dev: FlashDevice, address: u32, word: u32)
    requires
        in_flash(address),
        aligned_32(address),
        !dev.fault,
        (dev.memory)(quad_of(address)) == ERASED,
        (dev.memory)(quad_of(address) + 4) == ERASED,
        (dev.memory)(quad_of(address) + 8) == ERASED,
        (dev.memory)(quad_of(address) + 12) == ERASED,
    ensures
        ({
            let write = flc.session_for(
                FlashOp::Write32(word),
                address,
                [ERASED, ERASED, ERASED, ERASED],
            );
            let written = drive(write, dev, FlashEvent::Done, 19);
            &&& written is Some
            &&& written->0.result == Ok::<(), FlashError>(())
            &&& (written->0.device.memory)(address as int) == word
        }),
{
    let q = quad_of(address);
    let addressed = FlashDevice { address: physical_of(q as u32) as u32, ..dev };
    lemma_gather_erased(flc, dev, address, word, 19);
    lemma_check_erased(flc, dev, address, word, 14);
    assert((address as int) % 16 == 0 || (address as int) % 16 == 4 || (address as int) % 16 == 8
        || (address as int) % 16 == 12) by {
        assert(address % 4 == 0 ==> address % 16 == 0 || address % 16 == 4 || address % 16 == 8
            || address % 16 == 12) by (bit_vector);
    }
    assert((addressed.memory)(address as int) == ERASED);
    lemma_commit_spliced(flc, addressed, address, word, 7);
}

/// Erasing a page and then writing a 32-bit word at an aligned address in it
/// round-trips: both sessions succeed, the erase leaves every word of the
/// page at all ones, and the word at the address then reads exactly what was
/// written.
pub proof fn lemma_erase_then_write_round_trip(flc: &Flc, dev: FlashDevice, address: u32, word: u32)
    requires
        in_flash(address),
        aligned_32(address),
        !dev.fault,
    ensures
        ({
            let erase = flc.session_for(FlashOp::Erase, address, [ERASED, ERASED, ERASED, ERASED]);
            let erased = drive(erase, dev, FlashEvent::Done, 9);
            &&& erased is Some
            &&& erased->0.result == Ok::<(), FlashError>(())
            &&& forall|x: int| same_page(x, address as int) ==> (erased->0.device.memory)(x) == ERASED
            &&& {
                let write = flc.session_for(
                    FlashOp::Write32(word),
                    address,
                    [ERASED, ERASED, ERASED, ERASED],
                );
                let written = drive(write, erased->0.device, FlashEvent::Done, 19);
                &&& written is Some
                &&& written->0.result == Ok::<(), FlashError>(())
                &&& (written->0.device.memory)(address as int) == word
            }
        }),
{
    lemma_erase_clears_page(flc, dev, address);
    let after = drive(
        flc.session_for(FlashOp::Erase, address, [ERASED, ERASED, ERASED, ERASED]),
        dev,
        FlashEvent::Done,
        9,
    )->0.device;
    let q = quad_of(address);
    assert(same_page(q, address as int) && same_page(q + 4, address as int) && same_page(
        q + 8,
        address as int,
    ) && same_page(q + 12, address as int));
    lemma_write_32_after_erase(flc, after, address, word);
}

} // verus!
