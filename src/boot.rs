//! The boot sequence: take the chip from narrow to wide mode, map it, point
//! the vector table at it and jump there.
use vstd::prelude::*;
use crate::flash::{BusMode, FlashCommand, NarrowFlash, run};
use crate::geometry::FLASH_BASE;

verus! {

/// One step of the boot sequence.
#[derive(Clone, Copy, Debug, PartialEq, Eq, Structural)]
pub enum BootAction {
    /// A call into the flash driver.
    Flash(FlashCommand),
    /// Write the vector-table-offset register.
    SetVectorTable { address: u32 },
    /// Jump to `address` for good, discarding the current stack. Nothing
    /// after this step runs.
    Jump { address: u32 },
}

/// The boot sequence. The identifier is read for diagnostics only; booting
/// does not depend on it.
pub open spec fn boot_plan() -> Seq<BootAction> {
    seq![
        BootAction::Flash(FlashCommand::ReadId),
        BootAction::Flash(FlashCommand::IntoWide),
        BootAction::Flash(FlashCommand::EnableMemoryMap),
        BootAction::SetVectorTable { address: FLASH_BASE },
        BootAction::Jump { address: FLASH_BASE },
    ]
}

/// The driver commands among `actions`, in order.
pub open spec fn flash_commands(actions: Seq<BootAction>) -> Seq<FlashCommand>
    decreases actions.len(),
{
    if actions.len() == 0 {
        Seq::empty()
    } else {
        let rest = flash_commands(actions.drop_first());
        match actions[0] {
            BootAction::Flash(c) => seq![c].add(rest),
            _ => rest,
        }
    }
}

/// Builds the boot sequence through the mode-typed handles, so that each
/// command comes from a handle in the mode that offers it.
pub fn boot_sequence() -> (r: Vec<BootAction>)
    ensures
        r@ == boot_plan(),
{
    let narrow = NarrowFlash::new();
    let mut actions: Vec<BootAction> = Vec::new();
    actions.push(BootAction::Flash(narrow.read_id()));
    let (wide, to_wide) = narrow.into_wide();
    actions.push(BootAction::Flash(to_wide));
    let (_mapped, to_mapped) = wide.enable_memory_map();
    actions.push(BootAction::Flash(to_mapped));
    actions.push(BootAction::SetVectorTable { address: FLASH_BASE });
    actions.push(BootAction::Jump { address: FLASH_BASE });
    assert(actions@ =~= boot_plan());
    actions
}

/// The boot sequence's driver commands are all available when their turn
/// comes and leave the chip memory mapped; the vector table and the jump
/// both target the mapped window, and the jump comes last.
pub proof fn lemma_boot_plan_sound()
    ensures
        flash_commands(boot_plan()) == seq![
            FlashCommand::ReadId,
            FlashCommand::IntoWide,
            FlashCommand::EnableMemoryMap,
        ],
        run(BusMode::Narrow, flash_commands(boot_plan())) == Some(BusMode::Mapped),
        boot_plan().last() == (BootAction::Jump { address: FLASH_BASE }),
        forall|k: int| 0 <= k < boot_plan().len() - 1 ==> !(#[trigger] boot_plan()[k] is Jump),
{
    let p = boot_plan();
    reveal_with_fuel(flash_commands, 6);
    assert(p.drop_first().drop_first().drop_first().drop_first().drop_first()
        =~= Seq::<BootAction>::empty());
    assert(flash_commands(p.drop_first().drop_first().drop_first()) =~= Seq::<FlashCommand>::empty());
    assert(flash_commands(p) =~= seq![
        FlashCommand::ReadId,
        FlashCommand::IntoWide,
        FlashCommand::EnableMemoryMap,
    ]);
    reveal_with_fuel(run, 4);
}

} // verus!
