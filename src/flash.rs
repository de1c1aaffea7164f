//! Commands understood by the flash driver, the bus modes they need, and
//! one handle type per mode so that a handle that left narrow mode can no
//! longer issue narrow-mode commands.
use vstd::prelude::*;

verus! {

/// Bus width and addressing state of the chip.
#[derive(Clone, Copy, Debug, PartialEq, Eq, Structural)]
pub enum BusMode {
    /// Single data line, software-commanded.
    Narrow,
    /// Eight data lines, software-commanded.
    Wide,
    /// Eight data lines, contents readable directly in the address space.
    Mapped,
}

/// One call into the flash driver.
#[derive(Clone, Copy, Debug, PartialEq, Eq, Structural)]
pub enum FlashCommand {
    ReadId,
    IntoWide,
    EnableMemoryMap,
    EraseChip,
    /// Erase the sector at a chip-relative offset.
    EraseSector { offset: u32 },
    /// Write `len` bytes starting at a chip-relative offset, in one call.
    Write { offset: u32, len: usize },
}

/// Commands that only a narrow-mode handle offers.
pub open spec fn narrow_only(c: FlashCommand) -> bool {
    !(c is EnableMemoryMap)
}

/// Mode after issuing `c` in mode `m`, or `None` when `c` is not available
/// in `m`.
pub open spec fn mode_after(m: BusMode, c: FlashCommand) -> Option<BusMode> {
    match c {
        FlashCommand::IntoWide => if m is Narrow { Some(BusMode::Wide) } else { None },
        FlashCommand::EnableMemoryMap => if m is Wide { Some(BusMode::Mapped) } else { None },
        _ => if m is Narrow { Some(BusMode::Narrow) } else { None },
    }
}

/// Mode after issuing `cmds` in order from mode `m`, or `None` when one of
/// them is not available when its turn comes.
pub open spec fn run(m: BusMode, cmds: Seq<FlashCommand>) -> Option<BusMode>
    decreases cmds.len(),
{
    if cmds.len() == 0 {
        Some(m)
    } else {
        match mode_after(m, cmds[0]) {
            Some(n) => run(n, cmds.drop_first()),
            None => None,
        }
    }
}

/// Issuing `c` after `cmds` is the same as running `cmds` and then `c`.
pub proof fn lemma_run_push(m: BusMode, cmds: Seq<FlashCommand>, c: FlashCommand)
    ensures
        run(m, cmds.push(c)) == (match run(m, cmds) {
            Some(n) => mode_after(n, c),
            None => None,
        }),
    decreases cmds.len(),
{
    if cmds.len() == 0 {
        assert(cmds.push(c).drop_first() =~= Seq::<FlashCommand>::empty());
        reveal_with_fuel(run, 2);
    } else {
        assert(cmds.push(c).drop_first() =~= cmds.drop_first().push(c));
        if let Some(n) = mode_after(m, cmds[0]) {
            lemma_run_push(n, cmds.drop_first(), c);
        }
    }
}

/// From wide or mapped mode no narrow-mode command is ever accepted.
pub proof fn lemma_no_narrow_after_narrow(m: BusMode, cmds: Seq<FlashCommand>)
    requires
        !(m is Narrow),
        run(m, cmds) is Some,
    ensures
        forall|k: int| 0 <= k < cmds.len() ==> !narrow_only(#[trigger] cmds[k]),
    decreases cmds.len(),
{
    if cmds.len() > 0 {
        let n = mode_after(m, cmds[0])->0;
        lemma_no_narrow_after_narrow(n, cmds.drop_first());
        assert forall|k: int| 0 <= k < cmds.len() implies !narrow_only(#[trigger] cmds[k]) by {
            if k > 0 {
                assert(cmds[k] == cmds.drop_first()[k - 1]);
            }
        }
    }
}

/// Mode transitions are one way: in any accepted command sequence that
/// starts in narrow mode, no narrow-mode command follows the switch to wide
/// mode.
pub proof fn lemma_mode_monotonic(cmds: Seq<FlashCommand>, i: int, j: int)
    requires
        run(BusMode::Narrow, cmds) is Some,
        0 <= i < j < cmds.len(),
        cmds[i] is IntoWide,
    ensures
        !narrow_only(cmds[j]),
    decreases i,
{
    let rest = cmds.drop_first();
    assert(cmds[j] == rest[j - 1]);
    if i == 0 {
        lemma_no_narrow_after_narrow(BusMode::Wide, rest);
    } else {
        assert(cmds[i] == rest[i - 1]);
        let n = mode_after(BusMode::Narrow, cmds[0])->0;
        if n is Narrow {
            lemma_mode_monotonic(rest, i - 1, j - 1);
        } else {
            lemma_no_narrow_after_narrow(n, rest);
        }
    }
}

/// A handle in narrow mode: the only one that can read the identifier,
/// erase and write.
pub struct NarrowFlash {}

/// A handle in wide mode, not yet memory mapped.
pub struct WideFlash {}

/// A handle whose contents are mapped into the address space. It offers no
/// commands at all.
pub struct MappedFlash {}

impl NarrowFlash {
    /// A handle in the chip's post-reset mode.
    pub fn new() -> (r: NarrowFlash) {
        NarrowFlash {  }
    }

    pub fn read_id(&self) -> (c: FlashCommand)
        ensures
            c == FlashCommand::ReadId,
            mode_after(BusMode::Narrow, c) == Some(BusMode::Narrow),
    {
        FlashCommand::ReadId
    }

    pub fn erase_chip(&self) -> (c: FlashCommand)
        ensures
            c == FlashCommand::EraseChip,
            mode_after(BusMode::Narrow, c) == Some(BusMode::Narrow),
    {
        FlashCommand::EraseChip
    }

    pub fn erase_sector(&self, offset: u32) -> (c: FlashCommand)
        ensures
            c == (FlashCommand::EraseSector { offset }),
            mode_after(BusMode::Narrow, c) == Some(BusMode::Narrow),
    {
        FlashCommand::EraseSector { offset }
    }

    pub fn write(&self, offset: u32, len: usize) -> (c: FlashCommand)
        ensures
            c == (FlashCommand::Write { offset, len }),
            mode_after(BusMode::Narrow, c) == Some(BusMode::Narrow),
    {
        FlashCommand::Write { offset, len }
    }

    /// Switches to wide mode, giving up the narrow handle for good.
    pub fn into_wide(self) -> (r: (WideFlash, FlashCommand))
        ensures
            r.1 == FlashCommand::IntoWide,
            mode_after(BusMode::Narrow, r.1) == Some(BusMode::Wide),
    {
        (WideFlash {  }, FlashCommand::IntoWide)
    }
}

impl WideFlash {
    /// Maps the chip into the address space, giving up the command handle.
    pub fn enable_memory_map(self) -> (r: (MappedFlash, FlashCommand))
        ensures
            r.1 == FlashCommand::EnableMemoryMap,
            mode_after(BusMode::Wide, r.1) == Some(BusMode::Mapped),
    {
        (MappedFlash {  }, FlashCommand::EnableMemoryMap)
    }
}

} // verus!
