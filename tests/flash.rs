use std::collections::HashMap;

use max7800x_hal::flc::{
    can_program, physical_address, quad_address, splice_word, ControllerStatus, FlashAction,
    FlashError, FlashEvent, FlashSession, Flc, LockKind, PageLock, ERASED, FLASH_BASE, FLASH_END,
    FLASH_PAGE_COUNT, FLASH_PAGE_SIZE,
};
use max7800x_hal::gcr::clocks::{Div4, Oscillator};
use max7800x_hal::gcr::Gcr;

/// A flash controller and flash memory in software, which performs the
/// actions of a session and records what was written.
struct MockFlash {
    memory: HashMap<u32, u32>,
    address: u32,
    data: [u32; 4],
    unlocked: bool,
    erase_code: bool,
    fault: bool,
    protected_pages: Vec<u32>,
    actions: Vec<FlashAction>,
    mutations: usize,
    lock_writes: usize,
    unlock_writes: usize,
}

impl MockFlash {
    fn new() -> Self {
        MockFlash {
            memory: HashMap::new(),
            address: 0,
            data: [0; 4],
            unlocked: false,
            erase_code: false,
            fault: false,
            protected_pages: Vec::new(),
            actions: Vec::new(),
            mutations: 0,
            lock_writes: 0,
            unlock_writes: 0,
        }
    }

    fn word(&self, address: u32) -> u32 {
        *self.memory.get(&address).unwrap_or(&0)
    }

    fn fill(&mut self, start: u32, words: &[u32]) {
        for (i, w) in words.iter().enumerate() {
            self.memory.insert(start + 4 * i as u32, *w);
        }
    }

    fn page_of(address: u32) -> u32 {
        (address - FLASH_BASE) / FLASH_PAGE_SIZE
    }

    fn perform(&mut self, action: FlashAction) -> FlashEvent {
        self.actions.push(action);
        match action {
            FlashAction::ReadWord(a) => return FlashEvent::Word(self.word(a)),
            FlashAction::ReadFault => return FlashEvent::Fault(self.fault),
            FlashAction::WaitIdle => {}
            FlashAction::Finish(_) => panic!("a finished session was performed"),
            _ => self.mutations += 1,
        }
        match action {
            FlashAction::SetClockDivisor(_) => {}
            FlashAction::ClearFault => self.fault = false,
            FlashAction::SetAddress(a) => self.address = a,
            FlashAction::LoadData(d) => self.data = d,
            FlashAction::Unlock => {
                self.unlock_writes += 1;
                self.unlocked = true;
            }
            FlashAction::Lock => {
                self.lock_writes += 1;
                self.unlocked = false;
            }
            FlashAction::SetEraseCode => self.erase_code = true,
            FlashAction::CommitWrite => {
                let start = FLASH_BASE + self.address;
                if !self.unlocked || self.protected_pages.contains(&Self::page_of(start)) {
                    self.fault = true;
                } else {
                    for i in 0..4u32 {
                        let old = self.word(start + 4 * i);
                        self.memory.insert(start + 4 * i, old & self.data[i as usize]);
                    }
                }
            }
            FlashAction::CommitErase => {
                let target = FLASH_BASE + self.address;
                let page = Self::page_of(target);
                if !self.unlocked || !self.erase_code || self.protected_pages.contains(&page) {
                    self.fault = true;
                } else {
                    let start = FLASH_BASE + page * FLASH_PAGE_SIZE;
                    for i in 0..FLASH_PAGE_SIZE / 4 {
                        self.memory.insert(start + 4 * i, ERASED);
                    }
                    self.erase_code = false;
                }
            }
            _ => {}
        }
        FlashEvent::Done
    }

    fn run(&mut self, mut session: FlashSession) -> Result<(), FlashError> {
        let mut event = FlashEvent::Done;
        for _ in 0..64 {
            match session.step(event) {
                FlashAction::Finish(r) => {
                    assert!(!self.unlocked, "session finished with the controller unlocked");
                    assert!(session.is_finished());
                    return r;
                }
                action => event = self.perform(action),
            }
        }
        panic!("session did not finish");
    }

    fn read_32(&self, flc: &Flc, address: u32) -> Result<u32, FlashError> {
        flc.check_read_32(address)?;
        Ok(self.word(address))
    }
}

/// A controller on the secondary oscillator divided by four (15 MHz).
fn controller() -> Flc {
    let mut gcr = Gcr::new();
    let iso = Oscillator::new(gcr.osc_guards.iso).enable(&mut gcr.reg);
    let clocks = gcr.sys_clk.set_source(&mut gcr.reg, &iso).set_divider::<Div4>(&mut gcr.reg).freeze();
    Flc::new(clocks.sys_clk)
}

#[test]
fn geometry_constants() {
    assert_eq!(FLASH_END, 0x1008_0000);
    assert_eq!(FLASH_PAGE_COUNT * FLASH_PAGE_SIZE, 0x0008_0000);
}

#[test]
fn clock_divisor_is_mhz_rounded_down() {
    assert_eq!(controller().clock_divisor(), 15);
}

#[test]
fn is_busy_when_any_flag_is_set() {
    let flc = controller();
    let idle = ControllerStatus { pending: false, page_erase: false, mass_erase: false, write: false };
    assert!(!flc.is_busy(&idle));
    assert!(flc.is_busy(&ControllerStatus { pending: true, ..idle }));
    assert!(flc.is_busy(&ControllerStatus { page_erase: true, ..idle }));
    assert!(flc.is_busy(&ControllerStatus { mass_erase: true, ..idle }));
    assert!(flc.is_busy(&ControllerStatus { write: true, ..idle }));
}

#[test]
fn check_address_bounds() {
    let flc = controller();
    assert_eq!(flc.check_address(FLASH_BASE), Ok(()));
    assert_eq!(flc.check_address(FLASH_END - 1), Ok(()));
    assert_eq!(flc.check_address(FLASH_BASE - 1), Err(FlashError::InvalidAddress));
    assert_eq!(flc.check_address(FLASH_END), Err(FlashError::InvalidAddress));
}

#[test]
fn check_page_number_bounds() {
    let flc = controller();
    assert_eq!(flc.check_page_number(0), Ok(()));
    assert_eq!(flc.check_page_number(63), Ok(()));
    assert_eq!(flc.check_page_number(64), Err(FlashError::InvalidPage));
}

#[test]
fn page_address_conversions() {
    let flc = controller();
    assert_eq!(flc.get_address(48), Ok(0x1006_0000));
    assert_eq!(flc.get_address(63), Ok(0x1007_E000));
    assert_eq!(flc.get_address(64), Err(FlashError::InvalidPage));
    assert_eq!(flc.get_page_number(0x1006_0004), Ok(48));
    assert_eq!(flc.get_page_number(FLASH_END - 1), Ok(63));
    assert_eq!(flc.get_page_number(FLASH_BASE), Ok(0));
}

#[test]
fn page_round_trip_is_stable() {
    let flc = controller();
    for a in [FLASH_BASE, 0x1000_1FFF, 0x1000_2000, 0x1006_0004, 0x1003_3333, FLASH_END - 1] {
        let p = flc.get_page_number(a).unwrap();
        let start = flc.get_address(p).unwrap();
        assert_eq!(flc.get_page_number(start), Ok(p));
        assert!(start <= a && a < start + FLASH_PAGE_SIZE);
    }
}

#[test]
fn outside_addresses_are_rejected_everywhere() {
    let flc = controller();
    for a in [0, FLASH_BASE - 16, FLASH_END, 0xFFFF_FFF0] {
        assert_eq!(flc.check_address(a), Err(FlashError::InvalidAddress));
        assert_eq!(flc.get_page_number(a), Err(FlashError::InvalidAddress));
        assert_eq!(flc.check_read_32(a), Err(FlashError::InvalidAddress));
        assert_eq!(flc.check_read_128(a), Err(FlashError::InvalidAddress));
        assert_eq!(flc.disable_page_write(a), Err(FlashError::InvalidAddress));
        assert_eq!(flc.disable_page_read(a), Err(FlashError::InvalidAddress));
        for session in [flc.write_128(a, &[0; 4]), flc.write_32(a, 0), flc.erase_page(a)] {
            let mut mock = MockFlash::new();
            assert_eq!(mock.run(session), Err(FlashError::InvalidAddress));
            assert!(mock.actions.is_empty());
        }
    }
}

#[test]
fn unaligned_accesses_are_rejected_before_any_write() {
    let flc = controller();
    for off in [1u32, 2, 4, 8, 12, 15] {
        let mut mock = MockFlash::new();
        assert_eq!(mock.run(flc.write_128(0x1006_0000 + off, &[0; 4])), Err(FlashError::InvalidAddress));
        assert_eq!(mock.mutations, 0);
        assert!(mock.actions.is_empty());
        assert_eq!(flc.check_read_128(0x1006_0000 + off), Err(FlashError::InvalidAddress));
    }
    for off in [1u32, 2, 3, 5] {
        let mut mock = MockFlash::new();
        assert_eq!(mock.run(flc.write_32(0x1006_0000 + off, 0)), Err(FlashError::InvalidAddress));
        assert_eq!(mock.mutations, 0);
        assert_eq!(flc.check_read_32(0x1006_0000 + off), Err(FlashError::InvalidAddress));
    }
    assert_eq!(flc.check_read_32(0x1006_0004), Ok(()));
    assert_eq!(flc.check_read_128(0x1006_0010), Ok(()));
}

#[test]
fn hazard_check_on_erased_and_cleared_words() {
    for new in [0u32, 1, 0x1234_5678, 0x8000_0000, ERASED] {
        assert!(can_program(ERASED, new));
    }
    assert!(!can_program(0, ERASED));
    assert!(can_program(0b1100, 0b0100));
    assert!(!can_program(0b1100, 0b0110));
}

#[test]
fn zeros_under_ones_need_erase_for_every_lane() {
    let flc = controller();
    for lane in 0..4u32 {
        let mut mock = MockFlash::new();
        let mut old = [ERASED; 4];
        old[lane as usize] = 0;
        mock.fill(0x1006_0000, &old);
        assert_eq!(mock.run(flc.write_128(0x1006_0000, &[ERASED; 4])), Err(FlashError::NeedsErase));
        assert_eq!(mock.mutations, 1, "only the clock divisor is written");
        assert_eq!(mock.unlock_writes, 0);
        assert_eq!(mock.word(0x1006_0000 + 4 * lane), 0);
    }
}

#[test]
fn write_128_follows_the_protocol() {
    let flc = controller();
    let mut mock = MockFlash::new();
    mock.fill(0x1006_0000, &[ERASED; 4]);
    let data = [0x0403_0201, 0x0807_0605, 0x0C0B_0A09, 0x100F_0E0D];
    assert_eq!(mock.run(flc.write_128(0x1006_0000, &data)), Ok(()));
    assert_eq!(
        mock.actions,
        vec![
            FlashAction::WaitIdle,
            FlashAction::SetClockDivisor(15),
            FlashAction::ReadFault,
            FlashAction::ReadWord(0x1006_0000),
            FlashAction::ReadWord(0x1006_0004),
            FlashAction::ReadWord(0x1006_0008),
            FlashAction::ReadWord(0x1006_000C),
            FlashAction::SetAddress(0x0006_0000),
            FlashAction::LoadData(data),
            FlashAction::Unlock,
            FlashAction::CommitWrite,
            FlashAction::Lock,
            FlashAction::ReadFault,
        ]
    );
    for i in 0..4u32 {
        assert_eq!(mock.word(0x1006_0000 + 4 * i), data[i as usize]);
    }
}

#[test]
fn stale_fault_is_cleared_before_a_write() {
    let flc = controller();
    let mut mock = MockFlash::new();
    mock.fill(0x1000_0000, &[ERASED; 4]);
    mock.fault = true;
    assert_eq!(mock.run(flc.write_128(0x1000_0000, &[1, 2, 3, 4])), Ok(()));
    assert_eq!(mock.actions[3], FlashAction::ClearFault);
    assert_eq!(mock.word(0x1000_0008), 3);
}

#[test]
fn erase_then_write_round_trip() {
    let flc = controller();
    let mut mock = MockFlash::new();
    mock.fill(0x1006_0000, &[0, 0x55, 0xAA, 0x1234]);
    assert_eq!(mock.run(flc.erase_page(0x1006_0000)), Ok(()));
    for a in [0x1006_0000u32, 0x1006_0004, 0x1006_0008, 0x1006_000C, 0x1006_1FFC] {
        assert_eq!(mock.read_32(&flc, a), Ok(0xFFFF_FFFF));
    }
    assert_eq!(mock.run(flc.write_32(0x1006_0004, 0x1234_5678)), Ok(()));
    assert_eq!(mock.read_32(&flc, 0x1006_0004), Ok(0x1234_5678));
    assert_eq!(mock.read_32(&flc, 0x1006_0000), Ok(0xFFFF_FFFF));
}

#[test]
fn erase_follows_the_protocol() {
    let flc = controller();
    let mut mock = MockFlash::new();
    assert_eq!(mock.run(flc.erase_page(0x1006_0123)), Ok(()));
    assert_eq!(
        mock.actions,
        vec![
            FlashAction::WaitIdle,
            FlashAction::SetAddress(0x0006_0123),
            FlashAction::Unlock,
            FlashAction::SetEraseCode,
            FlashAction::CommitErase,
            FlashAction::Lock,
            FlashAction::ReadFault,
        ]
    );
    assert_eq!(mock.word(0x1006_0000), ERASED);
    assert_eq!(mock.word(0x1006_2000), 0);
}

#[test]
fn write_32_splices_only_its_lane() {
    let flc = controller();
    let mut mock = MockFlash::new();
    let old = [0x1111_1111, 0x2222_2222, ERASED, 0x4444_4444];
    mock.fill(0x1006_0010, &old);
    let address = 0x1006_0018;
    assert_eq!((address & 0b1100) >> 2, 2);
    assert_eq!(mock.run(flc.write_32(address, 0x0F0F_0F0F)), Ok(()));
    assert!(mock.actions.contains(&FlashAction::LoadData([0x1111_1111, 0x2222_2222, 0x0F0F_0F0F, 0x4444_4444])));
    assert_eq!(mock.word(0x1006_0010), 0x1111_1111);
    assert_eq!(mock.word(0x1006_0014), 0x2222_2222);
    assert_eq!(mock.word(0x1006_0018), 0x0F0F_0F0F);
    assert_eq!(mock.word(0x1006_001C), 0x4444_4444);
}

#[test]
fn write_32_needs_erase_when_its_lane_would_set_bits() {
    let flc = controller();
    let mut mock = MockFlash::new();
    mock.fill(0x1006_0010, &[ERASED, ERASED, 0, ERASED]);
    assert_eq!(mock.run(flc.write_32(0x1006_0018, 1)), Err(FlashError::NeedsErase));
    assert_eq!(mock.unlock_writes, 0);
}

#[test]
fn splice_and_quad_helpers() {
    assert_eq!(quad_address(0x1006_001C), 0x1006_0010);
    assert_eq!(quad_address(0x1006_0010), 0x1006_0010);
    assert_eq!(splice_word([1, 2, 3, 4], 0x1006_0018, 9), [1, 2, 9, 4]);
    assert_eq!(splice_word([1, 2, 3, 4], 0x1006_0014, 9), [1, 9, 3, 4]);
    assert_eq!(physical_address(0x1006_0004), 0x0006_0004);
}

#[test]
fn protected_page_gives_access_violation_and_relocks() {
    let flc = controller();
    let mut mock = MockFlash::new();
    mock.fill(0x1002_0000, &[ERASED; 4]);
    mock.protected_pages.push(16);
    assert_eq!(mock.run(flc.write_128(0x1002_0000, &[0; 4])), Err(FlashError::AccessViolation));
    assert!(!mock.fault, "the fault flag is cleared");
    assert!(!mock.unlocked);
    assert_eq!(mock.run(flc.erase_page(0x1002_0000)), Err(FlashError::AccessViolation));
    assert!(!mock.unlocked);
    assert_eq!(mock.word(0x1002_0000), ERASED);
}

#[test]
fn every_session_ends_locked() {
    let flc = controller();
    let mut mock = MockFlash::new();
    mock.protected_pages.push(3);
    let sessions = [
        flc.erase_page(0x1000_4000),
        flc.write_32(0x1000_4000, 7),
        flc.write_32(0x1000_4000, 0xFF),
        flc.write_128(0x1000_4010, &[0, 0, 0, 0]),
        flc.erase_page(0x1000_6000),
        flc.write_128(0x1000_6000, &[1, 1, 1, 1]),
        flc.write_128(0x1000_6001, &[1, 1, 1, 1]),
        flc.erase_page(0x2000_0000),
    ];
    for s in sessions {
        let _ = mock.run(s);
        assert!(!mock.unlocked);
        assert_eq!(mock.lock_writes, mock.unlock_writes);
    }
    assert!(mock.unlock_writes > 0);
}

#[test]
fn finished_session_keeps_its_result() {
    let flc = controller();
    let mut s = flc.write_128(3, &[0; 4]);
    assert_eq!(s.step(FlashEvent::Done), FlashAction::Finish(Err(FlashError::InvalidAddress)));
    assert!(s.is_finished());
    assert_eq!(s.step(FlashEvent::Done), FlashAction::Finish(Err(FlashError::InvalidAddress)));
}

#[test]
fn page_lock_bits() {
    let flc = controller();
    assert_eq!(
        flc.disable_page_write(0x1000_A000),
        Ok(PageLock { kind: LockKind::Write, register: 0, mask: 1 << 5 })
    );
    assert_eq!(
        flc.disable_page_read(0x1005_0000),
        Ok(PageLock { kind: LockKind::Read, register: 1, mask: 1 << 8 })
    );
    assert_eq!(
        flc.disable_page_write(FLASH_END - 4),
        Ok(PageLock { kind: LockKind::Write, register: 1, mask: 1 << 31 })
    );
    assert_eq!(PageLock::for_page(LockKind::Read, 31), PageLock { kind: LockKind::Read, register: 0, mask: 1 << 31 });
}
