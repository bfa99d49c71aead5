use wasp::arena::{Arena, Buffer};
use wasp::config::worker_threads;
use wasp::instance::{pack_ctx_id, split_ctx_id, worker_of_ctx_id, Instance};
use wasp::pool::{pick_index, pool_step, PoolEvent, PoolState};

#[test]
fn test_ctx_id() {
    let thread_id = 12;
    let buf_idx = 110;
    let ctx_id = pack_ctx_id(thread_id, buf_idx);
    assert_eq!(ctx_id, (12u64) << 32 | 110u64);
    let x = split_ctx_id(ctx_id);
    assert_eq!(x.0, thread_id);
    assert_eq!(x.1, buf_idx);
}

#[test]
fn ctx_ids_route_and_increase() {
    let mut ins = Instance::new(5);
    let a = ins.gen_ctx_id();
    let b = ins.gen_ctx_id();
    assert_eq!(worker_of_ctx_id(a), 5);
    assert_eq!(worker_of_ctx_id(b), 5);
    assert!(a < b);
    assert_eq!(split_ctx_id(a).1 + 1, split_ctx_id(b).1);
    let other = pack_ctx_id(6, split_ctx_id(a).1);
    assert_ne!(a, other);
}

#[test]
fn with_mut_sizes_and_stores() {
    let mut arena = Arena::new();
    let r = arena.with_mut(9, 4, |buf: Vec<u8>| {
        assert_eq!(buf, vec![0u8, 0, 0, 0]);
        let out = vec![1u8, 2, 3];
        let n = out.len();
        (out, n)
    });
    assert_eq!(r, 3);
    let r = arena.with_mut(9, 0, |buf: Vec<u8>| {
        assert_eq!(buf, vec![1u8, 2, 3]);
        let n = buf.len();
        (buf, n)
    });
    assert_eq!(r, 3);
    let r = arena.with_mut(9, 2, |buf: Vec<u8>| {
        assert_eq!(buf, vec![1u8, 2]);
        let n = buf.len();
        (buf, n)
    });
    assert_eq!(r, 2);
}

#[test]
fn take_and_reuse() {
    let mut arena = Arena::new();
    let _ = arena.with_mut(1, 3, |b: Vec<u8>| {
        let n = b.len();
        (b, n)
    });
    let buf = arena.take(1).expect("slot was filled");
    assert_eq!(buf.data, vec![0u8, 0, 0]);
    assert!(arena.take(1).is_none());
    arena.try_reuse(2, buf);
    let buf2 = arena.take(2).expect("installed under the next id");
    assert_eq!(buf2.data, vec![0u8, 0, 0]);
    arena.try_reuse(3, Buffer { data: vec![7u8], cap: 1 });
    arena.try_reuse(3, Buffer { data: vec![8u8, 9], cap: 2 });
    let kept = arena.take(3).expect("first reuse holds the slot");
    assert_eq!(kept.data, vec![7u8]);
}

#[test]
fn drain_keeps_capacity() {
    let mut arena = Arena::new();
    let _ = arena.with_mut(4, 5, |b: Vec<u8>| {
        let n = b.len();
        (b, n)
    });
    let grows_before = arena.grow_count();
    let drained = arena.drain(4);
    assert_eq!(drained, vec![0u8; 5]);
    let refilled = arena.with_mut(4, 5, |b: Vec<u8>| {
        let n = b.len();
        (b, n)
    });
    assert_eq!(refilled, 5);
    assert_eq!(arena.grow_count(), grows_before);
}

#[test]
fn buffer_reuse_allocates_at_most_twice() {
    // 1,000 sequential requests of identical size on one worker
    let mut ins = Instance::new(0);
    let request = vec![0xabu8; 256];
    let reply = vec![0xcdu8; 300];
    for _ in 0..1000 {
        let ctx_id = ins.gen_ctx_id();
        let req = request.clone();
        let _ = ins.arena.with_mut(ctx_id, req.len(), move |_buf: Vec<u8>| {
            let n = req.len();
            (req, n)
        });
        // the guest drains the request and writes its response
        let rep = reply.clone();
        let _ = ins.arena.with_mut(ctx_id, rep.len(), move |_buf: Vec<u8>| {
            let n = rep.len();
            (rep, n)
        });
        let buf = ins.take_buffer(ctx_id).expect("response stored");
        ins.try_reuse_buffer(buf);
    }
    assert!(ins.arena.grow_count() <= 2, "grew {} times", ins.arena.grow_count());
}

#[test]
fn pool_startup_machine() {
    let s = PoolState::Unloaded;
    let s = pool_step(s, PoolEvent::BeginCompile).unwrap();
    assert_eq!(s, PoolState::Compiling);
    let s = pool_step(s, PoolEvent::CompileOk(2)).unwrap();
    assert_eq!(s, PoolState::Instantiating(0, 2));
    let s = pool_step(s, PoolEvent::InstanceOk).unwrap();
    assert_eq!(s, PoolState::Instantiating(1, 2));
    let s = pool_step(s, PoolEvent::InstanceOk).unwrap();
    assert_eq!(s, PoolState::Ready(2));
    assert_eq!(pool_step(s, PoolEvent::InstanceOk), None);
    let failed = pool_step(PoolState::Compiling, PoolEvent::CompileFailed).unwrap();
    assert_eq!(failed, PoolState::Failed);
    assert_eq!(pool_step(PoolState::Compiling, PoolEvent::CompileOk(0)), None);
}

#[test]
fn dispatch_picks_by_worker_identity() {
    assert_eq!(pick_index(0, 4), 0);
    assert_eq!(pick_index(7, 4), 3);
    assert_eq!(pick_index(4, 4), 0);
    assert_eq!(pick_index(12345, 8), 12345 % 8);
}

#[test]
fn worker_count_rule() {
    assert_eq!(worker_threads(4), 4);
    assert_eq!(worker_threads(1), 1);
    assert!(worker_threads(0) >= 1);
}

#[test]
fn lib_it_works() {
    let result = 2 + 2;
    assert_eq!(result, 4);
}
