use frame_engine::adapter::{AdapterChoice, AdapterSearch, ProbeOutcome, ADAPTER_PROBE_LIMIT};
use frame_engine::descriptor::DescriptorTable;
use frame_engine::error::FrameError;
use frame_engine::fence::{Fence, WaitStep};
use frame_engine::resource::{Barrier, Command, ResourceState};
use frame_engine::swapchain::SwapChain;
use frame_engine::window::{Phase, Window};

const HEAP: usize = 0x1000;
const STRIDE: usize = 32;

/// Runs one whole frame on the buffer `index`, with the GPU reporting the
/// signalled value at once; returns the commands and the signalled value.
fn run_frame(w: &mut Window, index: u32) -> (Vec<Command>, u64) {
    let cmds = w.render(index).expect("frame starts");
    w.submit().expect("submit");
    w.present(true).expect("present");
    let value = w.wait_for_previous_frame().expect("signal");
    assert_eq!(w.wait(value), Ok(WaitStep::Reached));
    assert_eq!(w.phase, Phase::Idle);
    (cmds, value)
}

fn barriers_of(cmds: &[Command]) -> Vec<Barrier> {
    cmds.iter()
        .filter_map(|c| match c {
            Command::Transition(b) => Some(*b),
            _ => None,
        })
        .collect()
}

#[test]
fn frame_records_two_opposite_barriers() {
    let mut w = Window::new(2, HEAP, STRIDE, true).unwrap();
    let (cmds, _) = run_frame(&mut w, 1);
    assert_eq!(
        cmds,
        vec![
            Command::ResetAllocator,
            Command::ResetList,
            Command::BindRootSignature,
            Command::Transition(Barrier {
                slot: 1,
                before: ResourceState::Present,
                after: ResourceState::RenderTarget
            }),
            Command::ClearTarget(HEAP + STRIDE),
            Command::DrawTriangle,
            Command::Transition(Barrier {
                slot: 1,
                before: ResourceState::RenderTarget,
                after: ResourceState::Present
            }),
            Command::Close,
        ]
    );
}

#[test]
fn clear_only_frame_has_no_draw() {
    let mut w = Window::new(2, HEAP, STRIDE, false).unwrap();
    let (cmds, _) = run_frame(&mut w, 0);
    assert_eq!(cmds.len(), 7);
    assert!(!cmds.contains(&Command::DrawTriangle));
    assert_eq!(cmds[4], Command::ClearTarget(HEAP));
}

#[test]
fn barriers_alternate_over_many_frames() {
    for n in 1..5usize {
        let mut w = Window::new(n, HEAP, STRIDE, true).unwrap();
        let mut all: Vec<Barrier> = Vec::new();
        for k in 0..12u32 {
            let index = (k * 7 + 3) % n as u32;
            let (cmds, _) = run_frame(&mut w, index);
            let bs = barriers_of(&cmds);
            assert_eq!(bs.len(), 2);
            assert!(bs.iter().all(|b| b.slot == index as usize));
            all.extend(bs);
        }
        for slot in 0..n {
            let mut state = ResourceState::Present;
            for b in all.iter().filter(|b| b.slot == slot) {
                assert_eq!(b.before, state);
                assert_ne!(b.after, state);
                state = b.after;
            }
            assert_eq!(state, ResourceState::Present);
        }
        assert!(w.swap_chain.states.iter().all(|s| *s == ResourceState::Present));
    }
}

#[test]
fn fence_counter_strictly_increases() {
    let mut w = Window::new(2, HEAP, STRIDE, true).unwrap();
    let mut values = Vec::new();
    for k in 0..6u32 {
        let (_, v) = run_frame(&mut w, k % 2);
        values.push(v);
    }
    assert_eq!(values, vec![1, 2, 3, 4, 5, 6]);
    assert!(values.windows(2).all(|p| p[0] < p[1]));
}

#[test]
fn current_index_in_range_and_descriptor_formula() {
    let sc = SwapChain::new(2, 5000, 48).unwrap();
    assert_eq!(sc.current_index(0), Ok(0));
    assert_eq!(sc.current_index(1), Ok(1));
    assert_eq!(sc.current_index(2), Err(FrameError::InvalidBufferIndex));
    assert_eq!(sc.current_index(u32::MAX), Err(FrameError::InvalidBufferIndex));
    assert_eq!(sc.render_target_view(0), 5000);
    assert_eq!(sc.render_target_view(1), 5048);
    let t = DescriptorTable::new(7, 3, 4).unwrap();
    assert_eq!(t.handle(3), 16);
}

#[test]
fn descriptor_table_at_the_edge_of_the_address_space() {
    let t = DescriptorTable::new(usize::MAX - 20, 10, 2).unwrap();
    assert_eq!(t.handle(1), usize::MAX - 10);
    assert_eq!(DescriptorTable::new(usize::MAX - 20, 10, 3), Err(FrameError::InvalidConfig));
    assert_eq!(DescriptorTable::new(0, usize::MAX, 2), Err(FrameError::InvalidConfig));
}

#[test]
fn construction_rejects_bad_configuration() {
    assert!(matches!(Window::new(0, HEAP, STRIDE, true), Err(FrameError::InvalidConfig)));
    assert!(matches!(Window::new(2, usize::MAX, 1, true), Err(FrameError::InvalidConfig)));
    let w = Window::new(3, HEAP, STRIDE, true).unwrap();
    assert_eq!(w.swap_chain.len(), 3);
    assert_eq!(w.fence, Fence { submitted: 0, completed: 0 });
    assert_eq!(w.phase, Phase::Idle);
}

#[test]
fn wait_until_twice_on_reached_value() {
    let mut f = Fence::new();
    assert_eq!(f.signal_after_submit(), Ok(1));
    assert_eq!(f.signal_after_submit(), Ok(2));
    assert_eq!(f.wait_until(1, 2), Ok(WaitStep::Reached));
    let after_first = f;
    assert_eq!(f.wait_until(1, 2), Ok(WaitStep::Reached));
    assert_eq!(f, after_first);
    // a stale report does not make the wait block again
    assert_eq!(f.wait_until(1, 0), Ok(WaitStep::Reached));
    assert_eq!(f.completed, 2);
}

#[test]
fn scenario_three_renders_on_two_buffers() {
    let mut w = Window::new(2, HEAP, STRIDE, true).unwrap();
    // indices as a presentation engine may hand them out, not in strict rotation
    let engine = [0u32, 1, 1];
    let mut queried = Vec::new();
    for &reported in engine.iter() {
        let index = w.swap_chain.current_index(reported).unwrap();
        queried.push(index);
        run_frame(&mut w, reported);
    }
    assert!(queried.iter().all(|i| *i <= 1));
    assert_eq!(w.fence.submitted, 3);
    assert_eq!(w.drain_target(), 3);
}

#[test]
fn scenario_zero_timeout_on_signalled_value() {
    let mut f = Fence::new();
    let v = f.signal_after_submit().unwrap();
    assert_eq!(f.wait_until(v, v), Ok(WaitStep::Reached));
    assert_eq!(f.finish_wait(v, v), Ok(()));
}

#[test]
fn scenario_no_adapters() {
    let mut s = AdapterSearch::new();
    assert_eq!(s.current(), 0);
    assert_eq!(s.report(ProbeOutcome::NoMoreAdapters), Err(FrameError::NoCompatibleAdapter));
    assert_eq!(s.current(), 0);
}

#[test]
fn scenario_failure_at_first_barrier() {
    let mut w = Window::new(2, HEAP, STRIDE, true).unwrap();
    let cmds = w.render(0).unwrap();
    let barrier_step = cmds
        .iter()
        .position(|c| matches!(c, Command::Transition(_)))
        .unwrap();
    assert_eq!(barrier_step, 3);
    assert_eq!(w.recording_failed(barrier_step), Ok(vec![Command::Close]));
    assert_eq!(w.phase, Phase::Idle);
    assert!(w.fence.completed >= w.allocator_release);
    let next = w.render(1).unwrap();
    assert_eq!(next[0], Command::ResetAllocator);
    assert_eq!(next.len(), 8);
}

#[test]
fn cleanup_depends_on_the_failed_step() {
    let mut w = Window::new(2, HEAP, STRIDE, false).unwrap();
    let expected: [Vec<Command>; 7] = [
        vec![],
        vec![],
        vec![Command::Close],
        vec![Command::Close],
        vec![Command::Close],
        vec![Command::Close],
        vec![],
    ];
    for (step, want) in expected.iter().enumerate() {
        w.render(0).unwrap();
        assert_eq!(&w.recording_failed(step).unwrap(), want);
    }
    w.render(0).unwrap();
    assert_eq!(w.recording_failed(7), Err(FrameError::OutOfOrder));
    assert!(matches!(w.phase, Phase::Recording { slot: 0 }));
}

#[test]
fn adapter_search_takes_first_that_creates_a_device() {
    let mut s = AdapterSearch::new();
    assert_eq!(s.report(ProbeOutcome::Rejected), Ok(AdapterChoice::Probe(1)));
    assert_eq!(s.report(ProbeOutcome::Rejected), Ok(AdapterChoice::Probe(2)));
    assert_eq!(s.report(ProbeOutcome::Created), Ok(AdapterChoice::Use(2)));
}

#[test]
fn adapter_search_ends_at_the_probe_window() {
    let mut s = AdapterSearch::new();
    for i in 1..ADAPTER_PROBE_LIMIT {
        assert_eq!(s.report(ProbeOutcome::Rejected), Ok(AdapterChoice::Probe(i)));
    }
    assert_eq!(s.current(), 98);
    assert_eq!(s.report(ProbeOutcome::Rejected), Err(FrameError::NoCompatibleAdapter));
}

#[test]
fn out_of_order_calls_are_refused() {
    let mut w = Window::new(2, HEAP, STRIDE, true).unwrap();
    assert_eq!(w.submit(), Err(FrameError::OutOfOrder));
    assert_eq!(w.present(true), Err(FrameError::OutOfOrder));
    assert_eq!(w.wait_for_previous_frame(), Err(FrameError::OutOfOrder));
    assert_eq!(w.wait(0), Err(FrameError::OutOfOrder));
    assert_eq!(w.finish_wait(0), Err(FrameError::OutOfOrder));
    assert_eq!(w.recording_failed(0), Err(FrameError::OutOfOrder));
    w.render(0).unwrap();
    assert_eq!(w.render(1), Err(FrameError::OutOfOrder));
}

#[test]
fn invalid_index_leaves_the_frame_idle() {
    let mut w = Window::new(2, HEAP, STRIDE, true).unwrap();
    assert_eq!(w.render(2), Err(FrameError::InvalidBufferIndex));
    assert_eq!(w.phase, Phase::Idle);
}

#[test]
fn rejected_present_loses_the_renderer() {
    let mut w = Window::new(2, HEAP, STRIDE, true).unwrap();
    w.render(0).unwrap();
    w.submit().unwrap();
    assert_eq!(w.present(false), Err(FrameError::PresentFailed));
    assert_eq!(w.phase, Phase::Lost);
    assert_eq!(w.render(0), Err(FrameError::OutOfOrder));
}

#[test]
fn blocked_wait_then_timeout() {
    let mut w = Window::new(2, HEAP, STRIDE, true).unwrap();
    w.render(1).unwrap();
    w.submit().unwrap();
    w.present(true).unwrap();
    let v = w.wait_for_previous_frame().unwrap();
    assert_eq!(v, 1);
    assert_eq!(w.wait(0), Ok(WaitStep::Block));
    assert_eq!(w.phase, Phase::Waiting { target: 1 });
    assert_eq!(w.finish_wait(0), Err(FrameError::SynchronizationTimeout));
    assert_eq!(w.phase, Phase::Lost);
}

#[test]
fn blocked_wait_then_signal() {
    let mut w = Window::new(2, HEAP, STRIDE, true).unwrap();
    w.render(1).unwrap();
    w.submit().unwrap();
    w.present(true).unwrap();
    let v = w.wait_for_previous_frame().unwrap();
    assert_eq!(w.wait(0), Ok(WaitStep::Block));
    assert_eq!(w.finish_wait(v), Ok(()));
    assert_eq!(w.phase, Phase::Idle);
    assert_eq!(w.fence, Fence { submitted: 1, completed: 1 });
}

#[test]
fn report_above_submitted_is_a_lost_device() {
    let mut w = Window::new(2, HEAP, STRIDE, true).unwrap();
    w.render(0).unwrap();
    w.submit().unwrap();
    w.present(true).unwrap();
    w.wait_for_previous_frame().unwrap();
    assert_eq!(w.wait(u64::MAX), Err(FrameError::DeviceLost));
    assert_eq!(w.phase, Phase::Lost);
    let mut f = Fence::new();
    assert_eq!(f.observe(1), Err(FrameError::DeviceLost));
    assert_eq!(f, Fence::new());
}

#[test]
fn exhausted_counter_stops_new_frames() {
    let mut f = Fence { submitted: u64::MAX, completed: u64::MAX };
    assert_eq!(f.signal_after_submit(), Err(FrameError::CounterExhausted));
    let mut w = Window::new(2, HEAP, STRIDE, true).unwrap();
    w.fence = f;
    w.allocator_release = u64::MAX;
    assert_eq!(w.render(0), Err(FrameError::CounterExhausted));
    assert_eq!(w.phase, Phase::Idle);
}

#[test]
fn transition_reports_previous_state() {
    let mut sc = SwapChain::new(2, HEAP, STRIDE).unwrap();
    let b = sc.transition(1, ResourceState::CopyDest);
    assert_eq!(b, Barrier { slot: 1, before: ResourceState::Present, after: ResourceState::CopyDest });
    assert_eq!(sc.state(1), ResourceState::CopyDest);
    assert_eq!(sc.state(0), ResourceState::Present);
    let b = sc.transition(1, ResourceState::GenericRead);
    assert_eq!(b.before, ResourceState::CopyDest);
}

#[test]
fn populate_leaves_buffers_present() {
    let mut w = Window::new(2, HEAP, STRIDE, true).unwrap();
    let cmds = w.populate_command_list(1);
    assert_eq!(cmds[3], Command::Transition(Barrier {
        slot: 1,
        before: ResourceState::Present,
        after: ResourceState::RenderTarget,
    }));
    assert_eq!(w.swap_chain.states, vec![ResourceState::Present, ResourceState::Present]);
    assert_eq!(w.phase, Phase::Idle);
}
