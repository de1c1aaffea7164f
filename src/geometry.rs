//! Fixed geometry of the memory-mapped flash window.
use vstd::prelude::*;

verus! {

/// Start of the window through which the flash appears in the address space.
pub const FLASH_BASE: u32 = 0x7000_0000;

/// Number of addressable bytes in the window.
pub const FLASH_SIZE: u32 = 0x0200_0000;

/// Smallest erasable unit.
pub const SECTOR_SIZE: u32 = 0x1000;

/// Bytes handed over per program call. The chip's physical page is smaller
/// (0x100 bytes); batching a larger logical page saves round trips with the
/// host tool, which dominate programming time.
pub const PAGE_SIZE: u32 = 0x1000;

/// Value of an erased byte.
pub const EMPTY_VALUE: u8 = 0xFF;

/// First identifier byte reported by the expected vendor's chips.
pub const VENDOR_ID: u8 = 0xC2;

/// `addr` lies inside the mapped window.
pub open spec fn in_window(addr: int) -> bool {
    FLASH_BASE <= addr < FLASH_BASE + FLASH_SIZE
}

/// The `len` bytes starting at `addr` begin inside the mapped window and do
/// not run past its end.
pub open spec fn span_in_window(addr: int, len: int) -> bool {
    in_window(addr) && 0 <= len && addr - FLASH_BASE + len <= FLASH_SIZE
}

pub open spec fn is_power_of_two(n: nat) -> bool
    decreases n,
{
    if n == 1 {
        true
    } else if n == 0 || n % 2 == 1 {
        false
    } else {
        is_power_of_two(n / 2)
    }
}

/// Sector and page sizes are powers of two, the window is sector aligned and
/// lies wholly inside the 32-bit address space.
pub proof fn lemma_geometry_valid()
    ensures
        is_power_of_two(SECTOR_SIZE as nat),
        is_power_of_two(PAGE_SIZE as nat),
        FLASH_BASE % SECTOR_SIZE == 0,
        FLASH_SIZE % SECTOR_SIZE == 0,
        FLASH_BASE + FLASH_SIZE <= u32::MAX,
{
    reveal_with_fuel(is_power_of_two, 14);
}

/// Translating an address of the window to a chip offset is exact: the
/// offset is the address minus the base, neither negative nor wrapped, and
/// it lies inside the chip.
pub proof fn lemma_translation_exact(addr: u32)
    requires
        in_window(addr as int),
    ensures
        ((addr - FLASH_BASE) as u32) as int == addr - FLASH_BASE,
        0 <= addr - FLASH_BASE < FLASH_SIZE,
{
}

/// Chip-relative offset of an absolute address, or `None` when the address
/// lies outside the mapped window.
pub fn relative_offset(addr: u32) -> (r: Option<u32>)
    ensures
        in_window(addr as int) <==> r.is_some(),
        r matches Some(off) ==> off == addr - FLASH_BASE,
{
    if addr >= FLASH_BASE && addr - FLASH_BASE < FLASH_SIZE {
        Some(addr - FLASH_BASE)
    } else {
        None
    }
}

/// Chip-relative offset of a span of `len` bytes at `addr`, or `None` when
/// the span does not lie wholly inside the mapped window.
pub fn span_offset(addr: u32, len: usize) -> (r: Option<u32>)
    ensures
        span_in_window(addr as int, len as int) <==> r.is_some(),
        r matches Some(off) ==> off == addr - FLASH_BASE,
{
    match relative_offset(addr) {
        Some(off) => {
            if len as u64 <= (FLASH_SIZE - off) as u64 {
                Some(off)
            } else {
                None
            }
        },
        None => None,
    }
}

} // verus!
