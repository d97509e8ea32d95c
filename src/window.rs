use vstd::prelude::*;
use crate::descriptor::DescriptorTable;
use crate::error::FrameError;
use crate::fence::{Fence, WaitStep};
use crate::resource::{frame_commands, Command, ResourceState};
use crate::swapchain::SwapChain;

verus! {

/// Where the current frame stands. A frame goes
/// `Idle -> Recording -> Submitted -> Presented -> Waiting -> Idle`;
/// a failed recording goes back to `Idle`; a rejected present, a timed-out
/// wait or a lost device end in `Lost`, which nothing leaves.
#[derive(Clone, Copy, Debug, PartialEq, Eq, Structural)]
pub enum Phase {
    Idle,
    /// The command sequence for buffer `slot` is being recorded.
    Recording { slot: usize },
    /// The closed sequence was handed to the queue.
    Submitted { slot: usize },
    /// The presentation engine accepted the frame.
    Presented { slot: usize },
    /// The CPU waits for the fence to reach `target`.
    Waiting { target: u64 },
    Lost,
}

/// The renderer as the contracts see it.
pub struct FrameModel {
    /// State of each buffer's resource.
    pub states: Seq<ResourceState>,
    pub table: DescriptorTable,
    pub fence: Fence,
    pub phase: Phase,
    /// Fence value after which the GPU no longer reads the command
    /// allocator's memory.
    pub allocator_release: u64,
    /// Whether frames draw the static triangle after clearing.
    pub draw_geometry: bool,
}

impl FrameModel {
    pub open spec fn wf(self) -> bool {
        &&& self.table.wf()
        &&& self.table.count >= 1
        &&& self.states.len() == self.table.count
        &&& forall|i: int| 0 <= i < self.states.len() ==> self.states[i] == ResourceState::Present
        &&& self.fence.wf()
        &&& self.allocator_release <= self.fence.submitted
        &&& match self.phase {
            Phase::Idle => self.fence.completed >= self.allocator_release,
            Phase::Recording { slot } => {
                &&& slot < self.table.count
                &&& self.fence.submitted < u64::MAX
                &&& self.fence.completed >= self.allocator_release
            },
            Phase::Submitted { slot } => slot < self.table.count && self.fence.submitted
                < u64::MAX,
            Phase::Presented { slot } => slot < self.table.count && self.fence.submitted
                < u64::MAX,
            Phase::Waiting { target } => target == self.fence.submitted && target
                == self.allocator_release,
            Phase::Lost => true,
        }
    }

    /// No command list is open on the allocator and the GPU has finished
    /// with everything recorded in it: the next frame may reset it.
    pub open spec fn allocator_resettable(self) -> bool {
        self.phase is Idle && self.fence.completed >= self.allocator_release
    }

    /// Number of commands in a frame.
    pub open spec fn frame_len(self) -> nat {
        if self.draw_geometry {
            8
        } else {
            7
        }
    }

    /// The command sequence for a frame drawn into buffer `slot`.
    pub open spec fn commands_for(self, slot: usize) -> Seq<Command> {
        frame_commands(slot, self.table.handle_of(slot as int) as usize, self.draw_geometry)
    }

    /// What starting a frame gives when the presentation engine names
    /// buffer `reported`.
    pub open spec fn render_outcome(self, reported: u32) -> Result<Seq<Command>, FrameError> {
        if !(self.phase is Idle) {
            Err(FrameError::OutOfOrder)
        } else if self.fence.submitted == u64::MAX {
            Err(FrameError::CounterExhausted)
        } else if reported >= self.table.count {
            Err(FrameError::InvalidBufferIndex)
        } else {
            Ok(self.commands_for(reported as usize))
        }
    }

    pub open spec fn after_render(self, reported: u32) -> FrameModel {
        if self.render_outcome(reported) is Ok {
            FrameModel { phase: Phase::Recording { slot: reported as usize }, ..self }
        } else {
            self
        }
    }

    /// What must still be recorded after step `step` of the frame failed:
    /// closing the list if it was reset and not yet closed.
    pub open spec fn cleanup_after(self, step: usize) -> Seq<Command> {
        if 2 <= step && step + 1 < self.frame_len() {
            seq![Command::Close]
        } else {
            Seq::empty()
        }
    }

    pub open spec fn failure_outcome(self, step: usize) -> Result<Seq<Command>, FrameError> {
        if self.phase is Recording && step < self.frame_len() {
            Ok(self.cleanup_after(step))
        } else {
            Err(FrameError::OutOfOrder)
        }
    }

    pub open spec fn after_failure(self, step: usize) -> FrameModel {
        if self.failure_outcome(step) is Ok {
            FrameModel { phase: Phase::Idle, ..self }
        } else {
            self
        }
    }

    pub open spec fn submit_outcome(self) -> Result<(), FrameError> {
        if self.phase is Recording {
            Ok(())
        } else {
            Err(FrameError::OutOfOrder)
        }
    }

    pub open spec fn after_submit(self) -> FrameModel {
        match self.phase {
            Phase::Recording { slot } => FrameModel { phase: Phase::Submitted { slot }, ..self },
            _ => self,
        }
    }

    pub open spec fn present_outcome(self, accepted: bool) -> Result<(), FrameError> {
        if !(self.phase is Submitted) {
            Err(FrameError::OutOfOrder)
        } else if accepted {
            Ok(())
        } else {
            Err(FrameError::PresentFailed)
        }
    }

    pub open spec fn after_present(self, accepted: bool) -> FrameModel {
        match self.phase {
            Phase::Submitted { slot } => {
                if accepted {
                    FrameModel { phase: Phase::Presented { slot }, ..self }
                } else {
                    FrameModel { phase: Phase::Lost, ..self }
                }
            },
            _ => self,
        }
    }

    pub open spec fn signal_outcome(self) -> Result<u64, FrameError> {
        if self.phase is Presented {
            Ok((self.fence.submitted + 1) as u64)
        } else {
            Err(FrameError::OutOfOrder)
        }
    }

    pub open spec fn after_signal(self) -> FrameModel {
        if self.phase is Presented {
            let value = (self.fence.submitted + 1) as u64;
            FrameModel {
                fence: Fence { submitted: value, ..self.fence },
                phase: Phase::Waiting { target: value },
                allocator_release: value,
                ..self
            }
        } else {
            self
        }
    }

    pub open spec fn wait_outcome(self, reported: u64) -> Result<WaitStep, FrameError> {
        match self.phase {
            Phase::Waiting { target } => self.fence.wait_result(target, reported),
            _ => Err(FrameError::OutOfOrder),
        }
    }

    pub open spec fn after_wait(self, reported: u64) -> FrameModel {
        match self.phase {
            Phase::Waiting { target } => {
                let fence = self.fence.after_report(reported);
                let phase = match self.fence.wait_result(target, reported) {
                    Ok(WaitStep::Reached) => Phase::Idle,
                    Ok(WaitStep::Block) => self.phase,
                    Err(_) => Phase::Lost,
                };
                FrameModel { fence, phase, ..self }
            },
            _ => self,
        }
    }

    pub open spec fn finish_outcome(self, reported: u64) -> Result<(), FrameError> {
        match self.phase {
            Phase::Waiting { target } => self.fence.finish_result(target, reported),
            _ => Err(FrameError::OutOfOrder),
        }
    }

    pub open spec fn after_finish(self, reported: u64) -> FrameModel {
        match self.phase {
            Phase::Waiting { target } => {
                let fence = self.fence.after_report(reported);
                let phase = if self.fence.finish_result(target, reported) is Ok {
                    Phase::Idle
                } else {
                    Phase::Lost
                };
                FrameModel { fence, phase, ..self }
            },
            _ => self,
        }
    }
}

/// The frame orchestrator: owns the swapchain's buffers, the fence and the
/// phase of the current frame, and decides each step of the frame.
pub struct Window {
    pub swap_chain: SwapChain,
    pub fence: Fence,
    pub phase: Phase,
    pub allocator_release: u64,
    pub draw_geometry: bool,
}

impl View for Window {
    type V = FrameModel;

    open spec fn view(&self) -> FrameModel {
        FrameModel {
            states: self.swap_chain.states@,
            table: self.swap_chain.table,
            fence: self.fence,
            phase: self.phase,
            allocator_release: self.allocator_release,
            draw_geometry: self.draw_geometry,
        }
    }
}

impl Window {
    /// A renderer over `buffer_count` buffers whose render-target
    /// descriptors lie `descriptor_increment` apart from `heap_start`, idle,
    /// with every buffer in `Present` and nothing submitted.
    /// `InvalidConfig` when there are no buffers or the descriptor table does
    /// not fit the address space.
    pub fn new(
        buffer_count: usize,
        heap_start: usize,
        descriptor_increment: usize,
        draw_geometry: bool,
    ) -> (r: Result<Window, FrameError>)
        ensures
            (buffer_count == 0 || heap_start + buffer_count * descriptor_increment > usize::MAX)
                <==> r is Err,
            r matches Err(e) ==> e == FrameError::InvalidConfig,
            r matches Ok(w) ==> {
                &&& w@.wf()
                &&& w@.table == DescriptorTable {
                    heap_start,
                    increment: descriptor_increment,
                    count: buffer_count,
                }
                &&& w@.fence == Fence { submitted: 0, completed: 0 }
                &&& w@.phase == Phase::Idle
                &&& w@.allocator_release == 0
                &&& w@.draw_geometry == draw_geometry
            },
    {
        let swap_chain = match SwapChain::new(buffer_count, heap_start, descriptor_increment) {
            Ok(s) => s,
            Err(e) => return Err(e),
        };
        Ok(Window { swap_chain, fence: Fence::new(), phase: Phase::Idle, allocator_release: 0, draw_geometry })
    }

    /// Records the command sequence of a frame drawn into buffer `slot`:
    /// reset the allocator and the list, bind the root signature, move the
    /// buffer from `Present` to `RenderTarget`, clear its descriptor (and
    /// draw the triangle when geometry is on), move it back to `Present`,
    /// close the list.
    pub fn populate_command_list(&mut self, slot: usize) -> (r: Vec<Command>)
        requires
            old(self)@.wf(),
            slot < old(self)@.table.count,
        ensures
            r@ == old(self)@.commands_for(slot),
            final(self)@ == old(self)@,
    {
        let ghost before = self.swap_chain.states@;
        let target = self.swap_chain.render_target_view(slot);
        let mut cmds: Vec<Command> = Vec::new();
        cmds.push(Command::ResetAllocator);
        cmds.push(Command::ResetList);
        cmds.push(Command::BindRootSignature);
        let into_target = self.swap_chain.transition(slot, ResourceState::RenderTarget);
        cmds.push(Command::Transition(into_target));
        cmds.push(Command::ClearTarget(target));
        if self.draw_geometry {
            cmds.push(Command::DrawTriangle);
        }
        let back = self.swap_chain.transition(slot, ResourceState::Present);
        cmds.push(Command::Transition(back));
        cmds.push(Command::Close);
        proof {
            assert(self.swap_chain.states@ =~= before);
            assert(cmds@ =~= old(self)@.commands_for(slot));
        }
        cmds
    }

    /// Starts a frame on the buffer that the presentation engine names
    /// (`reported`), returning the commands to record. `OutOfOrder` unless
    /// idle; `CounterExhausted` when the fence could not be signalled after
    /// it; `InvalidBufferIndex` when `reported` names no buffer.
    pub fn render(&mut self, reported: u32) -> (r: Result<Vec<Command>, FrameError>)
        requires
            old(self)@.wf(),
        ensures
            final(self)@.wf(),
            final(self)@ == old(self)@.after_render(reported),
            r is Ok <==> old(self)@.render_outcome(reported) is Ok,
            r matches Ok(c) ==> old(self)@.render_outcome(reported) == Ok::<
                Seq<Command>,
                FrameError,
            >(c@),
            r matches Err(e) ==> old(self)@.render_outcome(reported) == Err::<
                Seq<Command>,
                FrameError,
            >(e),
    {
        if !matches!(self.phase, Phase::Idle) {
            return Err(FrameError::OutOfOrder);
        }
        if self.fence.submitted == u64::MAX {
            return Err(FrameError::CounterExhausted);
        }
        let slot = match self.swap_chain.current_index(reported) {
            Ok(s) => s,
            Err(e) => return Err(e),
        };
        let cmds = self.populate_command_list(slot);
        self.phase = Phase::Recording { slot };
        Ok(cmds)
    }

    /// Step `step` of the frame's recording failed: returns what must still
    /// be recorded so that the allocator can be reset again (closing the
    /// list, if it was open) and drops the frame. `OutOfOrder` when no frame
    /// is being recorded or the frame has no such step.
    pub fn recording_failed(&mut self, step: usize) -> (r: Result<Vec<Command>, FrameError>)
        requires
            old(self)@.wf(),
        ensures
            final(self)@.wf(),
            final(self)@ == old(self)@.after_failure(step),
            r is Ok <==> old(self)@.failure_outcome(step) is Ok,
            r matches Ok(c) ==> old(self)@.failure_outcome(step) == Ok::<
                Seq<Command>,
                FrameError,
            >(c@),
            r matches Err(e) ==> old(self)@.failure_outcome(step) == Err::<
                Seq<Command>,
                FrameError,
            >(e),
    {
        if !matches!(self.phase, Phase::Recording { .. }) {
            return Err(FrameError::OutOfOrder);
        }
        let len: usize = if self.draw_geometry {
            8
        } else {
            7
        };
        if step >= len {
            return Err(FrameError::OutOfOrder);
        }
        let mut cleanup: Vec<Command> = Vec::new();
        if 2 <= step && step + 1 < len {
            cleanup.push(Command::Close);
        }
        self.phase = Phase::Idle;
        proof {
            assert(cleanup@ =~= old(self)@.cleanup_after(step));
        }
        Ok(cleanup)
    }

    /// The recorded sequence was closed and handed to the queue.
    /// `OutOfOrder` unless a frame was being recorded.
    pub fn submit(&mut self) -> (r: Result<(), FrameError>)
        requires
            old(self)@.wf(),
        ensures
            final(self)@.wf(),
            final(self)@ == old(self)@.after_submit(),
            r == old(self)@.submit_outcome(),
    {
        match self.phase {
            Phase::Recording { slot } => {
                self.phase = Phase::Submitted { slot };
                Ok(())
            },
            _ => Err(FrameError::OutOfOrder),
        }
    }

    /// The presentation engine accepted (`accepted`) or rejected the
    /// submitted frame; a rejection is `PresentFailed` and loses the
    /// renderer. `OutOfOrder` unless a frame was submitted.
    pub fn present(&mut self, accepted: bool) -> (r: Result<(), FrameError>)
        requires
            old(self)@.wf(),
        ensures
            final(self)@.wf(),
            final(self)@ == old(self)@.after_present(accepted),
            r == old(self)@.present_outcome(accepted),
    {
        match self.phase {
            Phase::Submitted { slot } => {
                if accepted {
                    self.phase = Phase::Presented { slot };
                    Ok(())
                } else {
                    self.phase = Phase::Lost;
                    Err(FrameError::PresentFailed)
                }
            },
            _ => Err(FrameError::OutOfOrder),
        }
    }

    /// Advances the fence counter past the presented frame and returns the
    /// value the queue must signal; the frame then waits for it.
    /// `OutOfOrder` unless a frame was presented.
    pub fn wait_for_previous_frame(&mut self) -> (r: Result<u64, FrameError>)
        requires
            old(self)@.wf(),
        ensures
            final(self)@.wf(),
            final(self)@ == old(self)@.after_signal(),
            r == old(self)@.signal_outcome(),
    {
        if !matches!(self.phase, Phase::Presented { .. }) {
            return Err(FrameError::OutOfOrder);
        }
        let value = match self.fence.signal_after_submit() {
            Ok(v) => v,
            Err(e) => return Err(e),
        };
        self.allocator_release = value;
        self.phase = Phase::Waiting { target: value };
        Ok(value)
    }

    /// Whether the CPU must block before the next frame, given the completed
    /// value the fence reports now: `Reached` ends the frame. `DeviceLost`
    /// loses the renderer. `OutOfOrder` unless the frame is waiting.
    pub fn wait(&mut self, reported: u64) -> (r: Result<WaitStep, FrameError>)
        requires
            old(self)@.wf(),
        ensures
            final(self)@.wf(),
            final(self)@ == old(self)@.after_wait(reported),
            r == old(self)@.wait_outcome(reported),
    {
        match self.phase {
            Phase::Waiting { target } => {
                let r = self.fence.wait_until(target, reported);
                match r {
                    Ok(WaitStep::Reached) => self.phase = Phase::Idle,
                    Ok(WaitStep::Block) => {},
                    Err(_) => self.phase = Phase::Lost,
                }
                r
            },
            _ => Err(FrameError::OutOfOrder),
        }
    }

    /// Ends a blocking wait, given the completed value the fence reports
    /// once it returned: the frame ends, or the renderer is lost with
    /// `SynchronizationTimeout` (or `DeviceLost`). `OutOfOrder` unless the
    /// frame is waiting.
    pub fn finish_wait(&mut self, reported: u64) -> (r: Result<(), FrameError>)
        requires
            old(self)@.wf(),
        ensures
            final(self)@.wf(),
            final(self)@ == old(self)@.after_finish(reported),
            r == old(self)@.finish_outcome(reported),
    {
        match self.phase {
            Phase::Waiting { target } => {
                let r = self.fence.finish_wait(target, reported);
                if r.is_ok() {
                    self.phase = Phase::Idle;
                } else {
                    self.phase = Phase::Lost;
                }
                r
            },
            _ => Err(FrameError::OutOfOrder),
        }
    }

    /// The fence value to wait for before any GPU object is released: the
    /// last one submitted.
    pub fn drain_target(&self) -> (r: u64)
        ensures
            r == self@.fence.submitted,
    {
        self.fence.submitted
    }
}

/// After recording fails at any step of a frame, the allocator can be reset
/// again, and the next frame, on whichever buffer the presentation engine
/// names, is recorded in full, starting with the allocator reset.
pub proof fn lemma_failed_recording_recovers(m: FrameModel, step: usize, reported: u32)
    requires
        m.wf(),
        m.phase is Recording,
        step < m.frame_len(),
        reported < m.table.count,
    ensures
        m.failure_outcome(step) is Ok,
        m.after_failure(step).wf(),
        m.after_failure(step).allocator_resettable(),
        m.after_failure(step).render_outcome(reported) == Ok::<Seq<Command>, FrameError>(
            m.commands_for(reported as usize),
        ),
        m.commands_for(reported as usize)[0] == Command::ResetAllocator,
{
}

/// Every step of a frame leaves the fence's counters where they were or
/// moves them up, and the signalling step moves the submitted counter up by
/// exactly one; with `lemma_signals_strictly_increase`, the values that
/// successive frames signal strictly increase.
pub proof fn lemma_steps_advance_fence(m: FrameModel, reported: u32, step: usize, accepted: bool, completed: u64)
    requires
        m.wf(),
    ensures
        m.fence.advances(m.after_render(reported).fence),
        m.fence.advances(m.after_failure(step).fence),
        m.fence.advances(m.after_submit().fence),
        m.fence.advances(m.after_present(accepted).fence),
        m.fence.advances(m.after_signal().fence),
        m.fence.advances(m.after_wait(completed).fence),
        m.fence.advances(m.after_finish(completed).fence),
        m.signal_outcome() is Ok ==> {
            &&& m.after_signal().fence.submitted == m.fence.submitted + 1
            &&& m.signal_outcome() == Ok::<u64, FrameError>(m.after_signal().fence.submitted)
        },
{
}

/// A frame run through from idle (started on a buffer the presentation
/// engine names, submitted, presented, signalled, and waited for until the
/// GPU reports the signalled value) ends idle, with every buffer back in
/// `Present`, the allocator resettable, and the counter one above where it
/// was: after `k` such frames the counter stands at `k` above its start.
pub proof fn lemma_frame_cycle(m: FrameModel, reported: u32)
    requires
        m.wf(),
        m.phase is Idle,
        m.fence.submitted < u64::MAX,
        reported < m.table.count,
    ensures
        ({
            let signalled = m.after_render(reported).after_submit().after_present(true).after_signal();
            let value = (m.fence.submitted + 1) as u64;
            &&& m.after_render(reported).after_submit().after_present(true).signal_outcome()
                == Ok::<u64, FrameError>(value)
            &&& signalled.wait_outcome(value) == Ok::<WaitStep, FrameError>(WaitStep::Reached)
            &&& signalled.after_wait(value).wf()
            &&& signalled.after_wait(value).allocator_resettable()
            &&& signalled.after_wait(value).fence.submitted == m.fence.submitted + 1
            &&& signalled.after_wait(value).states == m.states
        }),
{
}

} // verus!
