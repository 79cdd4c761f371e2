use haproxy_api::pool::{ObjectPool, PER_WORKER_POOL_SIZE};

#[test]
fn pooled_objects_come_back_last_in_first_out() {
    let mut pool = ObjectPool::new(4);
    assert_eq!(pool.get(), None::<u32>);
    assert!(pool.put(1));
    assert!(pool.put(2));
    assert_eq!(pool.len(), 2);
    assert_eq!(pool.get(), Some(2));
    assert_eq!(pool.get(), Some(1));
    assert_eq!(pool.get(), None);
}

#[test]
fn a_full_pool_refuses_objects() {
    let mut pool = ObjectPool::new(PER_WORKER_POOL_SIZE);
    for i in 0..PER_WORKER_POOL_SIZE {
        assert!(pool.put(i));
    }
    assert_eq!(pool.len(), 512);
    assert!(!pool.put(9999));
    assert_eq!(pool.len(), PER_WORKER_POOL_SIZE);
    assert_eq!(pool.get(), Some(PER_WORKER_POOL_SIZE - 1));
    assert!(pool.put(7));
    assert_eq!(pool.get(), Some(7));
}
