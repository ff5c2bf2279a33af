use hlsl_box::pool::Pool;
use hlsl_box::renderer::buffers::align16;
use hlsl_box::renderer::command_list::DirectCommandList;
use hlsl_box::renderer::{CommandQueue, Fences, Signals};

#[test]
fn fence_monotonicity() {
    let mut fences = Fences::new();
    let mut queue: CommandQueue<DirectCommandList> = CommandQueue::new(&mut fences);
    let s1 = queue.signal();
    let s2 = queue.signal();
    let s3 = queue.signal();
    assert_eq!(s1.fence, s2.fence);
    assert!(s1.value < s2.value);
    assert!(s2.value < s3.value);

    // Completion never goes back from true to false as the GPU advances.
    fences.complete(s1.fence, s2.value);
    assert!(s1.is_completed(&fences));
    assert!(s2.is_completed(&fences));
    assert!(!s3.is_completed(&fences));
    fences.complete(s1.fence, s3.value);
    assert!(s1.is_completed(&fences));
    assert!(s2.is_completed(&fences));
    assert!(s3.is_completed(&fences));
}

#[test]
fn execute_logs_submission() {
    let mut fences = Fences::new();
    let mut queue: CommandQueue<DirectCommandList> = CommandQueue::new(&mut fences);
    let list = DirectCommandList::new();
    let other_signal = hlsl_box::renderer::Signal { fence: 0, value: 7 };
    queue.wait(&other_signal);
    let s = queue.execute(&list);
    assert_eq!(s.value, 1);
    let log = queue.log();
    assert_eq!(log.len(), 1);
    assert_eq!(log[0].value, 1);
    assert_eq!(log[0].waits, vec![other_signal]);
    assert!(log[0].ops.is_empty());
}

#[test]
fn idempotent_wait() {
    let mut fences = Fences::new();
    let fence = fences.register();
    let mut signals = Signals::new(4);
    signals.set(1, hlsl_box::renderer::Signal { fence, value: 5 });

    signals.wait(1, &mut fences);
    assert_eq!(fences.completed(fence), 5);

    // A second wait with nothing stored in between is a no-op.
    signals.wait(1, &mut fences);
    assert_eq!(fences.completed(fence), 5);
    assert!(signals.last_frame().is_none());
}

#[test]
fn wait_all_drains_every_slot() {
    let mut fences = Fences::new();
    let fence = fences.register();
    let mut signals = Signals::new(3);
    signals.set(0, hlsl_box::renderer::Signal { fence, value: 2 });
    signals.set(2, hlsl_box::renderer::Signal { fence, value: 9 });
    signals.wait_all(&mut fences);
    assert_eq!(fences.completed(fence), 9);
    assert!(signals.last_frame().is_none());
}

#[test]
fn last_frame_picks_first_highest() {
    let mut fences = Fences::new();
    let fence = fences.register();
    let _ = fence;
    let mut signals = Signals::new(4);
    assert!(signals.last_frame().is_none());
    signals.set(0, hlsl_box::renderer::Signal { fence: 0, value: 3 });
    signals.set(1, hlsl_box::renderer::Signal { fence: 0, value: 8 });
    signals.set(2, hlsl_box::renderer::Signal { fence: 0, value: 8 });
    signals.set(3, hlsl_box::renderer::Signal { fence: 0, value: 1 });
    let (index, signal) = signals.last_frame().unwrap();
    assert_eq!(index, 1);
    assert_eq!(signal.value, 8);
}

#[test]
fn pool_exclusivity() {
    let mut pool: Pool<u32> = Pool::new(vec![10, 20, 30]);
    let (i1, v1) = pool.pop().unwrap();
    let (i2, v2) = pool.pop().unwrap();
    let (i3, v3) = pool.pop().unwrap();
    assert_ne!(i1, i2);
    assert_ne!(i1, i3);
    assert_ne!(i2, i3);
    assert_eq!(vec![v1, v2, v3], vec![10, 20, 30]);
    // Exhausted: nothing to hand out.
    assert!(pool.pop().is_none());
    // Releasing a slot makes it eligible for the next acquirer.
    pool.release(i2, 21);
    let (i4, v4) = pool.pop().unwrap();
    assert_eq!(i4, i2);
    assert_eq!(v4, 21);
}

#[test]
fn align16_rounds_up_to_allocation_boundary() {
    assert_eq!(align16(0), 0);
    assert_eq!(align16(1), 16);
    assert_eq!(align16(15), 16);
    assert_eq!(align16(16), 16);
    assert_eq!(align16(17), 32);
    // 640 * 480 * 4 is already aligned.
    assert_eq!(align16(640 * 480 * 4), 640 * 480 * 4);
}
