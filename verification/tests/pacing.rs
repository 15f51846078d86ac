use frame_pacing::{DeviceAction, DeviceEvent, Gpu, PacerError, Phase, Submission};

/// A stand-in for the device: a timeline that completes one submitted frame
/// every `frame_cost` nanoseconds of waiting, and a log of what was asked.
struct FakeDevice {
    timeline: u64,
    signalled: u64,
    frame_cost: u64,
    waits: Vec<u64>,
    resets: Vec<(usize, u64)>,
    begins: Vec<usize>,
}

fn fake_device(frame_cost: u64) -> FakeDevice {
    FakeDevice {
        timeline: 0,
        signalled: 0,
        frame_cost,
        waits: Vec::new(),
        resets: Vec::new(),
        begins: Vec::new(),
    }
}

fn wait_on(dev: &mut FakeDevice, value: u64, timeout: u64) -> DeviceEvent {
    dev.waits.push(value);
    if dev.timeline >= value {
        return DeviceEvent::TimelineReached(dev.timeline);
    }
    let reachable = if value <= dev.signalled { value } else { dev.signalled };
    let mut budget = timeout;
    while dev.timeline < reachable && budget >= dev.frame_cost {
        dev.timeline += 1;
        budget -= dev.frame_cost;
        if dev.frame_cost == 0 && dev.timeline >= reachable {
            break;
        }
    }
    if dev.timeline >= value {
        DeviceEvent::TimelineReached(dev.timeline)
    } else {
        DeviceEvent::WaitTimedOut
    }
}

fn ring(n: usize) -> Gpu {
    let pools: Vec<u64> = (0..n as u64).map(|i| 100 + i).collect();
    let buffers: Vec<u64> = (0..n as u64).map(|i| 200 + i).collect();
    Gpu::new(n, 7, pools, buffers, 99).unwrap()
}

fn acquire(gpu: &mut Gpu, dev: &mut FakeDevice) -> Result<(usize, u64, u64), PacerError> {
    let mut event = DeviceEvent::Acquire;
    loop {
        match gpu.acquire_cmd_buffer(event)? {
            DeviceAction::WaitUntil { semaphore, value, timeout } => {
                assert_eq!(semaphore, 99);
                event = wait_on(dev, value, timeout);
            }
            DeviceAction::ResetPool { slot, pool } => {
                assert_eq!(pool, 100 + slot as u64);
                dev.resets.push((slot, dev.timeline));
                event = DeviceEvent::PoolReset;
            }
            DeviceAction::BeginRecording { slot, buffer } => {
                assert_eq!(buffer, 200 + slot as u64);
                dev.begins.push(slot);
                event = DeviceEvent::RecordingBegun;
            }
            DeviceAction::Record { slot, buffer, target } => return Ok((slot, buffer, target)),
        }
    }
}

fn submit(gpu: &mut Gpu, dev: &mut FakeDevice) -> Submission {
    let s = gpu.submit(5).unwrap();
    assert!(s.timeline_value > dev.signalled);
    dev.signalled = s.timeline_value;
    s
}

#[test]
fn two_slots_wait_from_the_third_frame() {
    let mut gpu = ring(2);
    let mut dev = fake_device(10);

    assert_eq!(acquire(&mut gpu, &mut dev), Ok((0, 200, 1)));
    assert!(dev.waits.is_empty());
    submit(&mut gpu, &mut dev);

    assert_eq!(acquire(&mut gpu, &mut dev), Ok((1, 201, 2)));
    assert!(dev.waits.is_empty());
    assert!(dev.resets.is_empty());
    submit(&mut gpu, &mut dev);

    assert_eq!(acquire(&mut gpu, &mut dev), Ok((0, 200, 3)));
    assert_eq!(dev.waits, vec![1]);
    assert_eq!(dev.resets, vec![(0, 1)]);
    submit(&mut gpu, &mut dev);

    assert_eq!(acquire(&mut gpu, &mut dev), Ok((1, 201, 4)));
    assert_eq!(dev.waits, vec![1, 2]);
    assert_eq!(dev.resets, vec![(0, 1), (1, 2)]);
    assert_eq!(dev.begins, vec![0, 1, 0, 1]);
}

#[test]
fn two_slots_step_by_step() {
    let mut gpu = ring(2);
    for frame in 0..2u64 {
        assert_eq!(
            gpu.acquire_cmd_buffer(DeviceEvent::Acquire),
            Ok(DeviceAction::BeginRecording { slot: frame as usize, buffer: 200 + frame })
        );
        assert_eq!(gpu.phase(), Phase::Beginning);
        assert_eq!(
            gpu.acquire_cmd_buffer(DeviceEvent::RecordingBegun),
            Ok(DeviceAction::Record { slot: frame as usize, buffer: 200 + frame, target: frame + 1 })
        );
        assert!(gpu.submit(5).is_ok());
    }
    assert_eq!(
        gpu.acquire_cmd_buffer(DeviceEvent::Acquire),
        Ok(DeviceAction::WaitUntil { semaphore: 99, value: 1, timeout: u64::MAX })
    );
    assert_eq!(gpu.phase(), Phase::Waiting);
    assert_eq!(
        gpu.acquire_cmd_buffer(DeviceEvent::TimelineReached(1)),
        Ok(DeviceAction::ResetPool { slot: 0, pool: 100 })
    );
    assert_eq!(gpu.phase(), Phase::Resetting);
    assert_eq!(gpu.reached(), 1);
    assert_eq!(
        gpu.acquire_cmd_buffer(DeviceEvent::PoolReset),
        Ok(DeviceAction::BeginRecording { slot: 0, buffer: 200 })
    );
    assert_eq!(
        gpu.acquire_cmd_buffer(DeviceEvent::RecordingBegun),
        Ok(DeviceAction::Record { slot: 0, buffer: 200, target: 3 })
    );
    assert_eq!(gpu.phase(), Phase::Idle);
    assert_eq!(gpu.frame_index(), 3);
}

#[test]
fn single_slot_serializes_cpu_and_gpu() {
    let mut gpu = ring(1);
    let mut dev = fake_device(10);
    let mut last_target = 0;
    for frame in 0..6u64 {
        let waits_before = dev.waits.len();
        let (slot, buffer, target) = acquire(&mut gpu, &mut dev).unwrap();
        assert_eq!((slot, buffer, target), (0, 200, frame + 1));
        if frame == 0 {
            assert_eq!(dev.waits.len(), waits_before);
        } else {
            assert_eq!(dev.waits.len(), waits_before + 1);
            assert_eq!(*dev.waits.last().unwrap(), last_target);
            assert_eq!(dev.timeline, last_target);
        }
        last_target = target;
        submit(&mut gpu, &mut dev);
    }
    assert_eq!(dev.waits, vec![1, 2, 3, 4, 5]);
}

#[test]
fn short_deadline_times_out_and_resets_nothing() {
    let mut gpu = ring(2);
    let mut dev = fake_device(1_000);
    gpu.set_timeout(999);
    assert_eq!(gpu.timeout(), 999);
    for _ in 0..2 {
        acquire(&mut gpu, &mut dev).unwrap();
        submit(&mut gpu, &mut dev);
    }
    assert_eq!(acquire(&mut gpu, &mut dev), Err(PacerError::Timeout));
    assert_eq!(dev.waits, vec![1]);
    assert!(dev.resets.is_empty());
    assert_eq!(dev.begins, vec![0, 1]);
    assert_eq!(gpu.frame_index(), 2);
    assert_eq!(gpu.phase(), Phase::Idle);
    assert_eq!(gpu.reached(), 0);

    // With a deadline that covers one frame the same acquire goes through.
    gpu.set_timeout(1_000);
    assert_eq!(acquire(&mut gpu, &mut dev), Ok((0, 200, 3)));
    assert_eq!(dev.waits, vec![1, 1]);
    assert_eq!(dev.resets, vec![(0, 1)]);
}

#[test]
fn the_wait_carries_the_configured_deadline() {
    let mut gpu = ring(1);
    assert_eq!(gpu.timeout(), u64::MAX);
    gpu.acquire_cmd_buffer(DeviceEvent::Acquire).unwrap();
    gpu.acquire_cmd_buffer(DeviceEvent::RecordingBegun).unwrap();
    gpu.submit(5).unwrap();
    gpu.set_timeout(123);
    assert_eq!(
        gpu.acquire_cmd_buffer(DeviceEvent::Acquire),
        Ok(DeviceAction::WaitUntil { semaphore: 99, value: 1, timeout: 123 })
    );
}

#[test]
fn a_reached_value_short_of_the_target_is_a_timeout() {
    let mut gpu = ring(1);
    let mut dev = fake_device(0);
    for _ in 0..3 {
        acquire(&mut gpu, &mut dev).unwrap();
        submit(&mut gpu, &mut dev);
    }
    assert_eq!(
        gpu.acquire_cmd_buffer(DeviceEvent::Acquire),
        Ok(DeviceAction::WaitUntil { semaphore: 99, value: 3, timeout: u64::MAX })
    );
    assert_eq!(gpu.acquire_cmd_buffer(DeviceEvent::TimelineReached(2)), Err(PacerError::Timeout));
    assert_eq!(gpu.phase(), Phase::Idle);
    assert_eq!(gpu.frame_index(), 3);
}

#[test]
fn a_reached_value_past_the_target_is_kept() {
    let mut gpu = ring(2);
    let mut dev = fake_device(0);
    for _ in 0..4 {
        acquire(&mut gpu, &mut dev).unwrap();
        submit(&mut gpu, &mut dev);
    }
    assert_eq!(
        gpu.acquire_cmd_buffer(DeviceEvent::Acquire),
        Ok(DeviceAction::WaitUntil { semaphore: 99, value: 3, timeout: u64::MAX })
    );
    assert_eq!(
        gpu.acquire_cmd_buffer(DeviceEvent::TimelineReached(4)),
        Ok(DeviceAction::ResetPool { slot: 0, pool: 100 })
    );
    assert_eq!(gpu.reached(), 4);
    assert_eq!(gpu.in_flight(), 0);
}

#[test]
fn targets_increase_by_exactly_one() {
    let mut gpu = ring(3);
    let mut dev = fake_device(1);
    let mut targets = Vec::new();
    for _ in 0..10 {
        let (_, _, target) = acquire(&mut gpu, &mut dev).unwrap();
        targets.push(target);
        let s = submit(&mut gpu, &mut dev);
        assert_eq!(s.timeline_value, target);
    }
    assert_eq!(targets, vec![1, 2, 3, 4, 5, 6, 7, 8, 9, 10]);
}

#[test]
fn the_initial_fill_never_waits() {
    let mut gpu = ring(4);
    let mut dev = fake_device(1_000_000);
    gpu.set_timeout(0);
    for frame in 0..4u64 {
        assert_eq!(acquire(&mut gpu, &mut dev), Ok((frame as usize, 200 + frame, frame + 1)));
    }
    assert!(dev.waits.is_empty());
    assert!(dev.resets.is_empty());
    assert_eq!(dev.timeline, 0);
}

#[test]
fn frames_in_flight_never_exceed_the_ring() {
    for n in 1..5usize {
        let mut gpu = ring(n);
        let mut dev = fake_device(3);
        for _ in 0..20 {
            acquire(&mut gpu, &mut dev).unwrap();
            assert!(gpu.frame_index() - dev.timeline <= n as u64);
            assert!(gpu.frame_index() - gpu.reached() <= n as u64);
            assert_eq!(gpu.in_flight(), gpu.frame_index() - gpu.reached());
            submit(&mut gpu, &mut dev);
        }
    }
}

#[test]
fn a_slot_is_reset_only_after_its_frame_completed() {
    let n = 3usize;
    let mut gpu = ring(n);
    let mut dev = fake_device(2);
    for _ in 0..12 {
        acquire(&mut gpu, &mut dev).unwrap();
        submit(&mut gpu, &mut dev);
    }
    assert_eq!(dev.resets.len(), 9);
    for (k, (slot, timeline_at_reset)) in dev.resets.iter().enumerate() {
        let frame = k as u64 + n as u64;
        let signalled_by_last_user = frame - n as u64 + 1;
        assert_eq!(*slot, (frame % n as u64) as usize);
        assert!(*timeline_at_reset >= signalled_by_last_user);
    }
}

#[test]
fn each_recycle_waits_exactly_once() {
    let n = 2usize;
    let mut gpu = ring(n);
    let mut dev = fake_device(2);
    for frame in 0..9u64 {
        let waits_before = dev.waits.len();
        let resets_before = dev.resets.len();
        acquire(&mut gpu, &mut dev).unwrap();
        if frame < n as u64 {
            assert_eq!(dev.waits.len(), waits_before);
            assert_eq!(dev.resets.len(), resets_before);
        } else {
            assert_eq!(dev.waits.len(), waits_before + 1);
            assert_eq!(dev.resets.len(), resets_before + 1);
            assert_eq!(*dev.waits.last().unwrap(), frame - n as u64 + 1);
        }
        submit(&mut gpu, &mut dev);
    }
}

#[test]
fn new_rejects_an_empty_ring() {
    assert_eq!(Gpu::new(0, 7, vec![], vec![], 99).err(), Some(PacerError::ResourceCreation));
}

#[test]
fn new_rejects_a_missing_pool_or_buffer() {
    assert_eq!(
        Gpu::new(2, 7, vec![100], vec![200, 201], 99).err(),
        Some(PacerError::ResourceCreation)
    );
    assert_eq!(
        Gpu::new(2, 7, vec![100, 101], vec![200], 99).err(),
        Some(PacerError::ResourceCreation)
    );
    assert_eq!(
        Gpu::new(1, 7, vec![100, 101], vec![200, 201], 99).err(),
        Some(PacerError::ResourceCreation)
    );
}

#[test]
fn new_starts_idle_at_frame_zero() {
    let gpu = Gpu::new(2, 7, vec![100, 101], vec![200, 201], 99).unwrap();
    assert_eq!(gpu.slot_count(), 2);
    assert_eq!(gpu.frame_index(), 0);
    assert_eq!(gpu.submitted(), 0);
    assert_eq!(gpu.reached(), 0);
    assert_eq!(gpu.phase(), Phase::Idle);
    assert_eq!(gpu.queue(), 7);
    assert_eq!(gpu.timeline(), 99);
    assert_eq!(gpu.timeout(), u64::MAX);
    assert_eq!(gpu.cmd_pool(0), 100);
    assert_eq!(gpu.cmd_pool(1), 101);
    assert_eq!(gpu.cmd_buffer(0), 200);
    assert_eq!(gpu.cmd_buffer(1), 201);
}

#[test]
fn submit_without_an_acquired_frame_is_invalid() {
    let mut gpu = ring(2);
    assert_eq!(gpu.submit(5), Err(PacerError::InvalidState));
    let mut dev = fake_device(0);
    acquire(&mut gpu, &mut dev).unwrap();
    assert_eq!(
        gpu.submit(5),
        Ok(Submission {
            slot: 0,
            command_buffer: 200,
            image_available: 5,
            timeline: 99,
            timeline_value: 1
        })
    );
    assert_eq!(gpu.submitted(), 1);
    assert_eq!(gpu.submit(5), Err(PacerError::InvalidState));
    assert_eq!(gpu.submitted(), 1);
}

#[test]
fn submit_during_a_hand_over_is_invalid() {
    let mut gpu = ring(2);
    let mut dev = fake_device(0);
    acquire(&mut gpu, &mut dev).unwrap();
    gpu.acquire_cmd_buffer(DeviceEvent::Acquire).unwrap();
    assert_eq!(gpu.submit(5), Err(PacerError::InvalidState));
    assert_eq!(gpu.phase(), Phase::Beginning);
    assert_eq!(gpu.submitted(), 0);
}

#[test]
fn submissions_follow_acquisition_order() {
    let mut gpu = ring(2);
    let mut dev = fake_device(0);
    acquire(&mut gpu, &mut dev).unwrap();
    acquire(&mut gpu, &mut dev).unwrap();
    let first = gpu.submit(5).unwrap();
    let second = gpu.submit(6).unwrap();
    assert_eq!((first.slot, first.command_buffer, first.timeline_value), (0, 200, 1));
    assert_eq!((second.slot, second.command_buffer, second.timeline_value), (1, 201, 2));
    assert_eq!(second.image_available, 6);
}

#[test]
fn recycling_a_slot_that_was_never_submitted_is_invalid() {
    let mut gpu = ring(1);
    let mut dev = fake_device(0);
    acquire(&mut gpu, &mut dev).unwrap();
    assert_eq!(gpu.acquire_cmd_buffer(DeviceEvent::Acquire), Err(PacerError::InvalidState));
    assert_eq!(gpu.phase(), Phase::Idle);
    assert_eq!(gpu.frame_index(), 1);
    assert!(dev.waits.is_empty());
}

#[test]
fn an_event_that_answers_nothing_is_invalid_and_changes_nothing() {
    let mut gpu = ring(2);
    for e in [
        DeviceEvent::TimelineReached(1),
        DeviceEvent::WaitTimedOut,
        DeviceEvent::PoolReset,
        DeviceEvent::RecordingBegun,
        DeviceEvent::Failed(-4),
    ] {
        assert_eq!(gpu.acquire_cmd_buffer(e), Err(PacerError::InvalidState));
        assert_eq!(gpu.phase(), Phase::Idle);
        assert_eq!(gpu.frame_index(), 0);
    }
    gpu.acquire_cmd_buffer(DeviceEvent::Acquire).unwrap();
    for e in [DeviceEvent::Acquire, DeviceEvent::PoolReset, DeviceEvent::TimelineReached(9)] {
        assert_eq!(gpu.acquire_cmd_buffer(e), Err(PacerError::InvalidState));
        assert_eq!(gpu.phase(), Phase::Beginning);
    }
}

#[test]
fn a_device_failure_ends_the_hand_over_with_its_code() {
    let mut gpu = ring(1);
    let mut dev = fake_device(0);
    gpu.acquire_cmd_buffer(DeviceEvent::Acquire).unwrap();
    assert_eq!(gpu.acquire_cmd_buffer(DeviceEvent::Failed(-1)), Err(PacerError::Device(-1)));
    assert_eq!(gpu.phase(), Phase::Idle);
    assert_eq!(gpu.frame_index(), 0);

    acquire(&mut gpu, &mut dev).unwrap();
    submit(&mut gpu, &mut dev);
    gpu.acquire_cmd_buffer(DeviceEvent::Acquire).unwrap();
    assert_eq!(gpu.acquire_cmd_buffer(DeviceEvent::Failed(-4)), Err(PacerError::Device(-4)));
    assert_eq!(gpu.phase(), Phase::Idle);

    gpu.acquire_cmd_buffer(DeviceEvent::Acquire).unwrap();
    gpu.acquire_cmd_buffer(DeviceEvent::TimelineReached(1)).unwrap();
    assert_eq!(gpu.acquire_cmd_buffer(DeviceEvent::Failed(-2)), Err(PacerError::Device(-2)));
    assert_eq!(gpu.phase(), Phase::Idle);
    assert_eq!(gpu.frame_index(), 1);
    assert_eq!(gpu.reached(), 1);
}

#[test]
fn wait_results_are_classified_by_code() {
    assert_eq!(DeviceEvent::from_wait(0, 17), DeviceEvent::TimelineReached(17));
    assert_eq!(DeviceEvent::from_wait(2, 17), DeviceEvent::WaitTimedOut);
    assert_eq!(DeviceEvent::from_wait(-4, 17), DeviceEvent::Failed(-4));
    assert_eq!(DeviceEvent::from_wait(1, 17), DeviceEvent::Failed(1));
}

#[test]
fn call_results_are_classified_by_code() {
    assert_eq!(DeviceEvent::from_call(0, DeviceEvent::PoolReset), DeviceEvent::PoolReset);
    assert_eq!(DeviceEvent::from_call(0, DeviceEvent::RecordingBegun), DeviceEvent::RecordingBegun);
    assert_eq!(DeviceEvent::from_call(-1, DeviceEvent::PoolReset), DeviceEvent::Failed(-1));
    assert_eq!(DeviceEvent::from_call(2, DeviceEvent::RecordingBegun), DeviceEvent::Failed(2));
}

#[test]
fn errors_describe_themselves() {
    assert_eq!(PacerError::ResourceCreation.describe(), "frame resources could not be created");
    assert_eq!(PacerError::Timeout.describe(), "timed out waiting for the GPU timeline");
    assert_eq!(PacerError::InvalidState.describe(), "frame pacing protocol violated");
    assert_eq!(PacerError::Device(-4).describe(), "the device reported an error");
}
