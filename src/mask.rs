use vstd::prelude::*;
use crate::command::Command;

verus! {

/// How draws interact with the stencil buffer.
#[derive(Clone, Copy, Debug, PartialEq, Eq, Structural)]
pub enum MaskState {
    /// Draws are visible everywhere.
    NoMask,
    /// Draws mark the stencil and are not visible.
    DrawMaskStencil,
    /// Draws are visible where the stencil equals the mask depth.
    DrawMaskedContent,
    /// Draws remove their stencil mark and are not visible.
    ClearMaskStencil,
}

/// The mask state of one render target together with its nesting depth.
#[derive(Clone, Copy, Debug, PartialEq, Eq, Structural)]
pub struct MaskTracker {
    pub num_masks: u32,
    pub state: MaskState,
}

pub open spec fn initial_masks() -> MaskTracker {
    MaskTracker { num_masks: 0, state: MaskState::NoMask }
}

pub open spec fn sat_inc(x: u32) -> u32 {
    if x < u32::MAX {
        (x + 1) as u32
    } else {
        x
    }
}

pub open spec fn sat_dec(x: u32) -> u32 {
    if x > 0 {
        (x - 1) as u32
    } else {
        0
    }
}

/// The stencil reference that draws use in the given state, if any.
pub open spec fn reference_for(m: MaskTracker) -> Option<u32> {
    match m.state {
        MaskState::NoMask => None,
        MaskState::DrawMaskStencil => Some(sat_dec(m.num_masks)),
        MaskState::DrawMaskedContent => Some(m.num_masks),
        MaskState::ClearMaskStencil => Some(m.num_masks),
    }
}

/// The tracker after a command; commands other than the four mask commands
/// leave it as it is. Counter changes saturate instead of overflowing.
pub open spec fn mask_step(m: MaskTracker, c: Command) -> MaskTracker {
    match c {
        Command::PushMask => MaskTracker {
            num_masks: sat_inc(m.num_masks),
            state: MaskState::DrawMaskStencil,
        },
        Command::ActivateMask => MaskTracker { state: MaskState::DrawMaskedContent, ..m },
        Command::DeactivateMask => MaskTracker { state: MaskState::ClearMaskStencil, ..m },
        Command::PopMask => MaskTracker {
            num_masks: sat_dec(m.num_masks),
            state: if sat_dec(m.num_masks) == 0 {
                MaskState::NoMask
            } else {
                MaskState::DrawMaskedContent
            },
        },
        _ => m,
    }
}

/// The stencil reference a mask command sets as it changes the state.
pub open spec fn mask_command_reference(m: MaskTracker, c: Command) -> u32 {
    match c {
        Command::PushMask => sat_dec(sat_inc(m.num_masks)),
        Command::PopMask => sat_dec(m.num_masks),
        _ => m.num_masks,
    }
}

/// The state transition table: whether `c` may follow in state `m`.
pub open spec fn mask_allowed(m: MaskTracker, c: Command) -> bool {
    match c {
        Command::PushMask => m.state == MaskState::NoMask || m.state
            == MaskState::DrawMaskedContent,
        Command::ActivateMask => m.num_masks > 0 && m.state == MaskState::DrawMaskStencil,
        Command::DeactivateMask => m.num_masks > 0 && m.state == MaskState::DrawMaskedContent,
        Command::PopMask => m.num_masks > 0 && m.state == MaskState::ClearMaskStencil,
        _ => true,
    }
}

/// The tracker after a whole command sequence.
pub open spec fn run_masks(m: MaskTracker, cmds: Seq<Command>) -> MaskTracker
    decreases cmds.len(),
{
    if cmds.len() == 0 {
        m
    } else {
        mask_step(run_masks(m, cmds.drop_last()), cmds.last())
    }
}

pub open spec fn count_of(cmds: Seq<Command>, push: bool) -> nat
    decreases cmds.len(),
{
    if cmds.len() == 0 {
        0
    } else {
        count_of(cmds.drop_last(), push) + if (push && cmds.last() is PushMask) || (!push
            && cmds.last() is PopMask) {
            1nat
        } else {
            0nat
        }
    }
}

/// Every mask command of `cmds` follows the transition table, starting from
/// the initial state, and pushes and pops are equally many.
pub open spec fn masks_well_formed(cmds: Seq<Command>) -> bool {
    &&& forall|i: int|
        0 <= i < cmds.len() ==> mask_allowed(
            run_masks(initial_masks(), cmds.take(i)),
            #[trigger] cmds[i],
        )
    &&& count_of(cmds, true) == count_of(cmds, false)
}

impl MaskTracker {
    pub fn new() -> (r: MaskTracker)
        ensures
            r == initial_masks(),
    {
        MaskTracker { num_masks: 0, state: MaskState::NoMask }
    }

    /// The stencil reference that draws use now, if any.
    pub fn stencil_reference(&self) -> (r: Option<u32>)
        ensures
            r == reference_for(*self),
    {
        match self.state {
            MaskState::NoMask => None,
            MaskState::DrawMaskStencil => Some(self.num_masks.saturating_sub(1)),
            MaskState::DrawMaskedContent => Some(self.num_masks),
            MaskState::ClearMaskStencil => Some(self.num_masks),
        }
    }

    /// Starts drawing a new mask one level deeper; returns the stencil
    /// reference to set.
    pub fn push_mask(&mut self) -> (r: u32)
        ensures
            *final(self) == mask_step(*old(self), Command::PushMask),
            r == mask_command_reference(*old(self), Command::PushMask),
    {
        self.num_masks = self.num_masks.saturating_add(1);
        self.state = MaskState::DrawMaskStencil;
        self.num_masks.saturating_sub(1)
    }

    /// Starts drawing content clipped by the innermost mask.
    pub fn activate_mask(&mut self) -> (r: u32)
        ensures
            *final(self) == mask_step(*old(self), Command::ActivateMask),
            r == mask_command_reference(*old(self), Command::ActivateMask),
    {
        self.state = MaskState::DrawMaskedContent;
        self.num_masks
    }

    /// Starts erasing the innermost mask from the stencil.
    pub fn deactivate_mask(&mut self) -> (r: u32)
        ensures
            *final(self) == mask_step(*old(self), Command::DeactivateMask),
            r == mask_command_reference(*old(self), Command::DeactivateMask),
    {
        self.state = MaskState::ClearMaskStencil;
        self.num_masks
    }

    /// Returns to the enclosing mask level.
    pub fn pop_mask(&mut self) -> (r: u32)
        ensures
            *final(self) == mask_step(*old(self), Command::PopMask),
            r == mask_command_reference(*old(self), Command::PopMask),
    {
        self.num_masks = self.num_masks.saturating_sub(1);
        if self.num_masks == 0 {
            self.state = MaskState::NoMask;
        } else {
            self.state = MaskState::DrawMaskedContent;
        }
        self.num_masks
    }
}

proof fn lemma_masks_count(cmds: Seq<Command>)
    requires
        forall|i: int|
            0 <= i < cmds.len() ==> mask_allowed(
                run_masks(initial_masks(), cmds.take(i)),
                #[trigger] cmds[i],
            ),
        cmds.len() < u32::MAX,
    ensures
        run_masks(initial_masks(), cmds).num_masks + count_of(cmds, false) == count_of(
            cmds,
            true,
        ),
        count_of(cmds, true) <= cmds.len(),
        run_masks(initial_masks(), cmds).num_masks == 0 ==> run_masks(
            initial_masks(),
            cmds,
        ).state == MaskState::NoMask,
    decreases cmds.len(),
{
    if cmds.len() > 0 {
        let prev = cmds.drop_last();
        assert forall|i: int| 0 <= i < prev.len() implies mask_allowed(
            run_masks(initial_masks(), prev.take(i)),
            #[trigger] prev[i],
        ) by {
            assert(prev.take(i) =~= cmds.take(i));
            assert(prev[i] == cmds[i]);
        }
        lemma_masks_count(prev);
        let k = cmds.len() - 1;
        assert(cmds.take(k) =~= prev);
        assert(mask_allowed(run_masks(initial_masks(), prev), cmds[k]));
    }
}

/// A well-formed command stream, where every mask command follows the
/// transition table and each push is matched by a pop, ends with no mask
/// and a zero counter.
pub proof fn lemma_balanced_masks_end_clear(cmds: Seq<Command>)
    requires
        masks_well_formed(cmds),
        cmds.len() < u32::MAX,
    ensures
        run_masks(initial_masks(), cmds) == initial_masks(),
{
    lemma_masks_count(cmds);
}

/// `n` nested mask openings: each push is followed by its activation.
pub open spec fn nested_masks(n: nat) -> Seq<Command>
    decreases n,
{
    if n == 0 {
        Seq::empty()
    } else {
        nested_masks((n - 1) as nat).push(Command::PushMask).push(Command::ActivateMask)
    }
}

/// Opening masks one inside another gives the pushes the stencil references
/// 0, 1, 2, ...: the push at nesting depth `k + 1` sets reference `k`.
pub proof fn lemma_nested_push_references(n: nat, k: nat)
    requires
        k < n < u32::MAX,
    ensures
        nested_masks(n)[2 * k as int] == Command::PushMask,
        run_masks(initial_masks(), nested_masks(n).take(2 * k as int)).num_masks == k,
        mask_command_reference(
            run_masks(initial_masks(), nested_masks(n).take(2 * k as int)),
            Command::PushMask,
        ) == k,
    decreases n,
{
    lemma_nested_masks_state(k);
    lemma_nested_prefix(n, k);
}

proof fn lemma_nested_masks_state(k: nat)
    requires
        k < u32::MAX,
    ensures
        nested_masks(k).len() == 2 * k,
        run_masks(initial_masks(), nested_masks(k)).num_masks == k,
    decreases k,
{
    if k > 0 {
        lemma_nested_masks_state((k - 1) as nat);
        let s = nested_masks((k - 1) as nat).push(Command::PushMask);
        assert(nested_masks(k).drop_last() =~= s);
        assert(s.drop_last() =~= nested_masks((k - 1) as nat));
        assert(run_masks(initial_masks(), s) == mask_step(
            run_masks(initial_masks(), nested_masks((k - 1) as nat)),
            Command::PushMask,
        ));
        assert(run_masks(initial_masks(), nested_masks(k)) == mask_step(
            run_masks(initial_masks(), s),
            Command::ActivateMask,
        ));
    }
}

proof fn lemma_nested_prefix(n: nat, k: nat)
    requires
        k <= n,
    ensures
        nested_masks(n).len() == 2 * n,
        nested_masks(n).take(2 * k as int) == nested_masks(k),
        k < n ==> nested_masks(n)[2 * k as int] == Command::PushMask,
    decreases n,
{
    if n > 0 {
        if k < n {
            lemma_nested_prefix((n - 1) as nat, k);
            let p = nested_masks((n - 1) as nat);
            assert(nested_masks(n) =~= p.push(Command::PushMask).push(Command::ActivateMask));
            assert(nested_masks(n).take(2 * k as int) =~= p.take(2 * k as int));
            if k == n - 1 {
                assert(nested_masks(n)[2 * k as int] == Command::PushMask);
            } else {
                assert(nested_masks(n)[2 * k as int] == p[2 * k as int]);
            }
        } else {
            lemma_nested_prefix((n - 1) as nat, (n - 1) as nat);
            assert(nested_masks(n).take(2 * k as int) =~= nested_masks(n));
        }
    }
}

/// Drawing a nested mask and popping it restores the enclosing level: the
/// tracker is as before, and the pop sets the reference that the enclosing
/// masked content draws with.
pub proof fn lemma_pop_restores_enclosing(m: MaskTracker)
    requires
        m.state == MaskState::DrawMaskedContent || m == initial_masks(),
        m.state == MaskState::DrawMaskedContent ==> m.num_masks > 0,
        m.num_masks < u32::MAX,
    ensures
        ({
            let opened = mask_step(mask_step(mask_step(m, Command::PushMask), Command::ActivateMask), Command::DeactivateMask);
            &&& mask_step(opened, Command::PopMask) == m
            &&& mask_command_reference(opened, Command::PopMask) == m.num_masks
            &&& m.state == MaskState::DrawMaskedContent ==> reference_for(m) == Some(
                mask_command_reference(opened, Command::PopMask),
            )
        }),
{
}

} // verus!
