use flash_algorithm::Function;
use xspi_flash::algorithm::{FlashError, Session, Step, ADDRESS_OUT_OF_RANGE_CODE, INVALID_STATE_CODE};
use xspi_flash::flash::FlashCommand;
use xspi_flash::geometry::{FLASH_BASE, FLASH_SIZE, PAGE_SIZE, SECTOR_SIZE, VENDOR_ID};

fn ready_session() -> Session {
    let mut s = Session::new();
    assert_eq!(s.initialize(0, 0, Function::Program, [VENDOR_ID, 0x80, 0x3A]), Ok(()));
    s
}

fn bracketed(c: FlashCommand) -> Vec<Step> {
    vec![Step::Indicator { active: true }, Step::Command(c), Step::Indicator { active: false }]
}

#[test]
fn initialize_accepts_expected_vendor() {
    let mut s = Session::new();
    assert!(!s.is_ready());
    assert_eq!(s.initialize(0x0800_0000, 12_000_000, Function::Erase, [0xC2, 0x12, 0x34]), Ok(()));
    assert!(s.is_ready());
}

#[test]
fn initialize_rejects_zero_identifier_with_code_zero() {
    let mut s = Session::new();
    let r = s.initialize(0, 0, Function::Erase, [0x00, 0x12, 0x34]);
    assert_eq!(r, Err(FlashError::DeviceMismatch { id: 0x00 }));
    assert_eq!(r.unwrap_err().code(), 0x00);
    assert!(!s.is_ready());
    assert!(s.identify_steps().is_empty());
    assert_eq!(s.erase_all(), Err(FlashError::InvalidState));
}

#[test]
fn initialize_reports_other_vendor_byte() {
    let mut s = Session::new();
    let r = s.initialize(0, 0, Function::Verify, [0xEF, 0x40, 0x18]);
    assert_eq!(r, Err(FlashError::DeviceMismatch { id: 0xEF }));
    assert_eq!(r.unwrap_err().code(), 0xEF);
}

#[test]
fn initialize_twice_is_refused() {
    let mut s = ready_session();
    assert_eq!(s.initialize(0, 0, Function::Program, [VENDOR_ID, 0, 0]), Err(FlashError::InvalidState));
    assert!(s.is_ready());
}

#[test]
fn identify_steps_leave_indicator_inactive() {
    let s = Session::new();
    assert_eq!(
        s.identify_steps(),
        vec![Step::Indicator { active: false }, Step::Command(FlashCommand::ReadId)]
    );
}

#[test]
fn erase_sector_translates_to_relative_offset() {
    let mut s = ready_session();
    assert_eq!(SECTOR_SIZE, 0x1000);
    assert_eq!(
        s.erase_sector(FLASH_BASE + 0x1000),
        Ok(bracketed(FlashCommand::EraseSector { offset: 0x1000 }))
    );
}

#[test]
fn program_page_is_one_write_of_all_bytes() {
    let mut s = ready_session();
    let data = vec![0xA5u8; 4096];
    let steps = s.program_page(FLASH_BASE + 0x2000, &data).unwrap();
    assert_eq!(steps, bracketed(FlashCommand::Write { offset: 0x2000, len: 4096 }));
    let writes = steps.iter().filter(|st| matches!(st, Step::Command(FlashCommand::Write { .. }))).count();
    assert_eq!(writes, 1);
    assert_eq!(PAGE_SIZE as usize, data.len());
}

#[test]
fn erase_all_runs_under_indicator() {
    let mut s = ready_session();
    assert_eq!(s.erase_all(), Ok(bracketed(FlashCommand::EraseChip)));
}

#[test]
fn window_edges() {
    let mut s = ready_session();
    assert_eq!(s.erase_sector(FLASH_BASE), Ok(bracketed(FlashCommand::EraseSector { offset: 0 })));
    let last = FLASH_BASE + FLASH_SIZE - SECTOR_SIZE;
    assert_eq!(
        s.erase_sector(last),
        Ok(bracketed(FlashCommand::EraseSector { offset: FLASH_SIZE - SECTOR_SIZE }))
    );
    assert_eq!(
        s.erase_sector(FLASH_BASE - 1),
        Err(FlashError::AddressOutOfRange { address: FLASH_BASE - 1 })
    );
    assert_eq!(
        s.erase_sector(FLASH_BASE + FLASH_SIZE),
        Err(FlashError::AddressOutOfRange { address: FLASH_BASE + FLASH_SIZE })
    );
    assert_eq!(s.erase_sector(0), Err(FlashError::AddressOutOfRange { address: 0 }));
}

#[test]
fn program_page_must_not_run_past_window() {
    let mut s = ready_session();
    let data = vec![0u8; 0x1000];
    let last = FLASH_BASE + FLASH_SIZE - 0x1000;
    assert_eq!(
        s.program_page(last, &data),
        Ok(bracketed(FlashCommand::Write { offset: FLASH_SIZE - 0x1000, len: 0x1000 }))
    );
    let r = s.program_page(last + 1, &data);
    assert_eq!(r, Err(FlashError::AddressOutOfRange { address: last + 1 }));
    assert_eq!(r.unwrap_err().code(), ADDRESS_OUT_OF_RANGE_CODE);
    let empty: Vec<u8> = Vec::new();
    assert_eq!(
        s.program_page(FLASH_BASE + 8, &empty),
        Ok(bracketed(FlashCommand::Write { offset: 8, len: 0 }))
    );
}

#[test]
fn operations_need_ready_session() {
    let mut s = Session::new();
    let data = [1u8, 2, 3];
    assert_eq!(s.erase_sector(FLASH_BASE), Err(FlashError::InvalidState));
    assert_eq!(s.program_page(FLASH_BASE, &data), Err(FlashError::InvalidState));
    assert_eq!(FlashError::InvalidState.code(), INVALID_STATE_CODE);
    let mut r = ready_session();
    r.teardown();
    assert!(!r.is_ready());
    assert_eq!(r.erase_all(), Err(FlashError::InvalidState));
    assert!(r.identify_steps().is_empty());
}

#[test]
fn error_codes_are_distinct() {
    assert_ne!(ADDRESS_OUT_OF_RANGE_CODE, INVALID_STATE_CODE);
    for id in 0..=255u8 {
        let c = FlashError::DeviceMismatch { id }.code();
        assert_eq!(c, id as u32);
        assert_ne!(c, ADDRESS_OUT_OF_RANGE_CODE);
        assert_ne!(c, INVALID_STATE_CODE);
    }
}

#[test]
fn indicator_inactive_between_all_calls() {
    let mut s = Session::new();
    let mut active = true;
    let mut transcript: Vec<Step> = s.identify_steps();
    assert_eq!(s.initialize(0, 0, Function::Erase, [VENDOR_ID, 1, 2]), Ok(()));
    let data = [0x11u8; 64];
    transcript.extend(s.erase_all().unwrap());
    transcript.extend(s.erase_sector(FLASH_BASE + 0x5000).unwrap());
    transcript.extend(s.program_page(FLASH_BASE + 0x5000, &data).unwrap());
    assert!(s.erase_sector(FLASH_BASE + FLASH_SIZE).is_err());
    for step in &transcript {
        match step {
            Step::Indicator { active: a } => active = *a,
            Step::Command(FlashCommand::ReadId) => {}
            Step::Command(_) => assert!(active),
        }
    }
    assert!(!active);
}
