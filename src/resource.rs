use vstd::prelude::*;

verus! {

/// The usage mode of a GPU resource, as the GPU last observed it.
#[derive(Clone, Copy, Debug, PartialEq, Eq, Structural)]
pub enum ResourceState {
    Present,
    RenderTarget,
    GenericRead,
    CopyDest,
}

/// A transition barrier: the resource of buffer `slot` moves from `before`
/// to `after`.
#[derive(Clone, Copy, Debug, PartialEq, Eq, Structural)]
pub struct Barrier {
    pub slot: usize,
    pub before: ResourceState,
    pub after: ResourceState,
}

/// One operation of a frame's command sequence.
#[derive(Clone, Copy, Debug, PartialEq, Eq, Structural)]
pub enum Command {
    /// Reset the command allocator, freeing the previous recording's memory.
    ResetAllocator,
    /// Reset the command list onto the freshly reset allocator.
    ResetList,
    /// Bind the root signature, viewport and scissor rectangle.
    BindRootSignature,
    /// Record a resource-state transition barrier.
    Transition(Barrier),
    /// Bind the render-target descriptor at this address and clear it.
    ClearTarget(usize),
    /// Bind the static vertex buffer and draw its triangle (3 vertices, 1 instance).
    DrawTriangle,
    /// Close the command list, making it ready for submission.
    Close,
}

/// The command sequence of one frame drawn into buffer `slot`, whose
/// render-target descriptor lies at `target`.
pub open spec fn frame_commands(slot: usize, target: usize, draw: bool) -> Seq<Command> {
    let opening = seq![
        Command::ResetAllocator,
        Command::ResetList,
        Command::BindRootSignature,
        Command::Transition(
            Barrier { slot, before: ResourceState::Present, after: ResourceState::RenderTarget },
        ),
        Command::ClearTarget(target),
    ];
    let closing = seq![
        Command::Transition(
            Barrier { slot, before: ResourceState::RenderTarget, after: ResourceState::Present },
        ),
        Command::Close,
    ];
    if draw {
        opening.push(Command::DrawTriangle) + closing
    } else {
        opening + closing
    }
}

/// The barriers that `cmds` records, in order.
pub open spec fn barriers(cmds: Seq<Command>) -> Seq<Barrier>
    decreases cmds.len(),
{
    if cmds.len() == 0 {
        Seq::empty()
    } else {
        let rest = barriers(cmds.drop_first());
        match cmds[0] {
            Command::Transition(b) => seq![b] + rest,
            _ => rest,
        }
    }
}

/// Replays the barriers that `cmds` records for buffer `slot`, starting
/// from `state`: the state the buffer ends in, or `None` as soon as a
/// barrier does not start from the state the buffer is in, or leaves it
/// where it was.
pub open spec fn replay(state: ResourceState, slot: usize, cmds: Seq<Command>) -> Option<
    ResourceState,
>
    decreases cmds.len(),
{
    if cmds.len() == 0 {
        Some(state)
    } else {
        let rest = cmds.drop_first();
        match cmds[0] {
            Command::Transition(b) => {
                if b.slot != slot {
                    replay(state, slot, rest)
                } else if b.before == state && b.after != state {
                    replay(b.after, slot, rest)
                } else {
                    None
                }
            },
            _ => replay(state, slot, rest),
        }
    }
}

/// The commands of a run of frames, one after the other; frame `k` draws
/// into buffer `frames[k].0` through the descriptor at `frames[k].1`, with
/// geometry when `frames[k].2` holds.
pub open spec fn run_commands(frames: Seq<(usize, usize, bool)>) -> Seq<Command>
    decreases frames.len(),
{
    if frames.len() == 0 {
        Seq::empty()
    } else {
        let last = frames.last();
        run_commands(frames.drop_last()) + frame_commands(last.0, last.1, last.2)
    }
}

proof fn lemma_replay_append(state: ResourceState, slot: usize, a: Seq<Command>, b: Seq<Command>)
    ensures
        replay(state, slot, a + b) == match replay(state, slot, a) {
            Some(mid) => replay(mid, slot, b),
            None => None,
        },
    decreases a.len(),
{
    if a.len() == 0 {
        assert(a + b =~= b);
    } else {
        assert((a + b).drop_first() =~= a.drop_first() + b);
        assert((a + b)[0] == a[0]);
        match a[0] {
            Command::Transition(bar) => {
                if bar.slot != slot {
                    lemma_replay_append(state, slot, a.drop_first(), b);
                } else if bar.before == state && bar.after != state {
                    lemma_replay_append(bar.after, slot, a.drop_first(), b);
                }
            },
            _ => lemma_replay_append(state, slot, a.drop_first(), b),
        }
    }
}

/// A frame records exactly two barriers, both on the buffer it draws into:
/// `Present` to `RenderTarget` before drawing, and back to `Present` after.
pub proof fn lemma_frame_barriers(slot: usize, target: usize, draw: bool)
    ensures
        barriers(frame_commands(slot, target, draw)) == seq![
            Barrier { slot, before: ResourceState::Present, after: ResourceState::RenderTarget },
            Barrier { slot, before: ResourceState::RenderTarget, after: ResourceState::Present },
        ],
{
    reveal_with_fuel(barriers, 9);
    let cmds = frame_commands(slot, target, draw);
    assert(cmds.drop_first()[0] == Command::ResetList);
    assert(barriers(cmds) =~= seq![
        Barrier { slot, before: ResourceState::Present, after: ResourceState::RenderTarget },
        Barrier { slot, before: ResourceState::RenderTarget, after: ResourceState::Present },
    ]);
}

/// For every buffer, a frame's barriers take it from `Present` back to
/// `Present`, each one starting from the state the buffer is in and leaving
/// it in another.
pub proof fn lemma_frame_replay(slot: usize, target: usize, draw: bool, other: usize)
    ensures
        replay(ResourceState::Present, other, frame_commands(slot, target, draw)) == Some(
            ResourceState::Present,
        ),
{
    reveal_with_fuel(replay, 9);
    let cmds = frame_commands(slot, target, draw);
    assert(cmds.drop_first()[0] == Command::ResetList);
}

/// Over any run of frames, and for every buffer, the recorded barriers
/// alternate: each starts from the state the previous one left the buffer
/// in, none leaves it where it was (so two transitions in the same direction
/// never follow each other), and the buffer is back in `Present` at the end.
pub proof fn lemma_run_alternates(frames: Seq<(usize, usize, bool)>, slot: usize)
    ensures
        replay(ResourceState::Present, slot, run_commands(frames)) == Some(ResourceState::Present),
    decreases frames.len(),
{
    if frames.len() == 0 {
        assert(replay(ResourceState::Present, slot, Seq::empty()) == Some(ResourceState::Present));
    } else {
        let last = frames.last();
        lemma_run_alternates(frames.drop_last(), slot);
        lemma_frame_replay(last.0, last.1, last.2, slot);
        lemma_replay_append(
            ResourceState::Present,
            slot,
            run_commands(frames.drop_last()),
            frame_commands(last.0, last.1, last.2),
        );
    }
}

} // verus!
