use pgpool::{
    drop_action, recycle_plan, recycle_result, wait_mode, DropAction, Error, Object, Pool, PoolConfig,
    RecyclePlan, RecyclingMethod, State, Timeouts, WaitMode, CLEAN_SCRIPT,
};

fn config(max: usize) -> PoolConfig {
    PoolConfig::new(None).max_connections(max)
}

fn checkout(pool: &mut Pool<u32>, session: u32) -> Result<Object<u32>, Error> {
    let mut obj = Object::new();
    pool.acquire(&mut obj)?;
    if pool.receive(&mut obj) {
        assert!(obj.recycled(true).is_none());
    } else {
        let id = pool.config_id();
        obj.created(session, id);
    }
    assert_eq!(obj.state(), State::Ready);
    Ok(obj)
}

#[test]
fn two_slots_third_try_get_times_out_until_one_is_dropped() {
    let cfg = PoolConfig::new(None)
        .max_connections(2)
        .max_retries(3);
    let cfg = PoolConfig { timeouts: cfg.timeouts.wait(100), ..cfg };
    let mut pool: Pool<u32> = Pool::new(cfg);
    assert_eq!(wait_mode(&pool.get_timeouts()), WaitMode::Deadline(100));
    assert_eq!(wait_mode(&pool.try_get_timeouts()), WaitMode::NonBlocking);

    let a = checkout(&mut pool, 1).unwrap();
    let b = checkout(&mut pool, 2).unwrap();
    assert_eq!(pool.in_use(), 2);

    let mut third = Object::new();
    assert_eq!(pool.acquire(&mut third), Err(Error::Timeout));
    assert_eq!(third.state(), State::Waiting);

    assert_eq!(pool.retire(a), None);
    assert_eq!(pool.in_use(), 1);
    assert_eq!(pool.idle_len(), 1);

    let c = checkout(&mut pool, 3).unwrap();
    assert_eq!(*c.client(), 1);
    assert_eq!(pool.in_use(), 2);
    drop(b);
}

#[test]
fn slot_bound_holds_for_several_sizes() {
    for n in 0..5usize {
        let mut pool: Pool<u32> = Pool::new(config(n));
        let mut held = Vec::new();
        for i in 0..n {
            held.push(checkout(&mut pool, i as u32).unwrap());
        }
        assert_eq!(pool.in_use(), n);
        let mut extra = Object::new();
        assert_eq!(pool.acquire(&mut extra), Err(Error::Timeout));
        assert_eq!(pool.in_use(), n);
    }
}

#[test]
fn try_get_on_closed_pool_fails_with_closed() {
    let mut pool: Pool<u32> = Pool::new(config(1));
    let a = checkout(&mut pool, 7).unwrap();
    assert_eq!(pool.retire(a), None);
    assert_eq!(pool.idle_len(), 1);
    pool.close();
    assert!(pool.is_closed());
    assert_eq!(pool.idle_len(), 0);
    assert_eq!(pool.try_acquire(), Err(Error::Closed));
    let mut obj = Object::new();
    assert_eq!(pool.acquire(&mut obj), Err(Error::Closed));
}

#[test]
fn replace_config_empties_queue_and_refuses_stale_sessions() {
    let mut pool: Pool<u32> = Pool::new(config(3));
    let a = checkout(&mut pool, 1).unwrap();
    let b = checkout(&mut pool, 2).unwrap();
    assert_eq!(pool.retire(a), None);
    assert_eq!(pool.idle_len(), 1);

    // the same settings again change nothing
    assert!(!pool.replace_config(config(3)));
    assert_eq!(pool.idle_len(), 1);
    assert_eq!(pool.config_id(), 0);

    assert!(pool.replace_config(config(3).readonly()));
    assert_eq!(pool.idle_len(), 0);
    assert_eq!(pool.config_id(), 1);
    assert!(pool.config().readonly);
    assert_eq!(pool.capacity(), 3);

    // a session of the old configuration is not requeued
    assert_eq!(pool.retire(b), Some(2));
    assert_eq!(pool.idle_len(), 0);
    assert_eq!(pool.in_use(), 0);

    let c = checkout(&mut pool, 9).unwrap();
    assert_eq!(*c.client(), 9);
}

#[test]
fn failed_recycle_discards_and_creates_fresh() {
    let mut pool: Pool<u32> = Pool::new(config(2));
    let a = checkout(&mut pool, 1).unwrap();
    assert_eq!(pool.retire(a), None);

    let mut obj = Object::new();
    pool.acquire(&mut obj).unwrap();
    assert!(pool.receive(&mut obj));
    assert_eq!(obj.state(), State::Recycling);
    assert_eq!(obj.recycled(false), Some(1));
    assert_eq!(obj.state(), State::Receiving);
    assert_eq!(pool.in_use(), 1);
    assert!(!pool.receive(&mut obj));
    assert_eq!(obj.state(), State::Creating);
    obj.created(5, pool.config_id());
    assert_eq!(*obj.client(), 5);
    assert_eq!(pool.retire(obj), None);
    assert_eq!(pool.in_use(), 0);
}

#[test]
fn retire_releases_one_slot_in_every_holding_state() {
    let mut pool: Pool<u32> = Pool::new(config(1));
    // waiting: nothing to give back
    assert_eq!(pool.retire(Object::new()), None);
    assert_eq!(pool.in_use(), 0);

    // receiving
    let mut obj = Object::new();
    pool.acquire(&mut obj).unwrap();
    assert_eq!(pool.retire(obj), None);
    assert_eq!(pool.in_use(), 0);

    // creating
    let mut obj = Object::new();
    pool.acquire(&mut obj).unwrap();
    assert!(!pool.receive(&mut obj));
    assert_eq!(pool.retire(obj), None);
    assert_eq!(pool.in_use(), 0);
    assert_eq!(pool.idle_len(), 0);

    // taken: the slot goes back, the session does not
    let mut obj = checkout(&mut pool, 4).unwrap();
    assert_eq!(obj.take(), 4);
    assert_eq!(obj.state(), State::Taken);
    assert_eq!(pool.retire(obj), None);
    assert_eq!(pool.in_use(), 0);
    assert_eq!(pool.idle_len(), 0);

    // recycling: the session is requeued
    let obj = checkout(&mut pool, 6).unwrap();
    assert_eq!(pool.retire(obj), None);
    let mut obj = Object::new();
    pool.acquire(&mut obj).unwrap();
    assert!(pool.receive(&mut obj));
    assert_eq!(pool.retire(obj), None);
    assert_eq!(pool.in_use(), 0);
    assert_eq!(pool.idle_len(), 1);
}

#[test]
fn drop_actions_by_state() {
    assert_eq!(drop_action(State::Waiting), DropAction::Nothing);
    assert_eq!(drop_action(State::Dropped), DropAction::Nothing);
    assert_eq!(drop_action(State::Receiving), DropAction::Release);
    assert_eq!(drop_action(State::Creating), DropAction::Release);
    assert_eq!(drop_action(State::Taken), DropAction::Release);
    assert_eq!(drop_action(State::Recycling), DropAction::RequeueAndRelease);
    assert_eq!(drop_action(State::Ready), DropAction::RequeueAndRelease);
}

#[test]
fn wait_modes() {
    assert_eq!(wait_mode(&Timeouts::new()), WaitMode::Unbounded);
    assert_eq!(wait_mode(&Timeouts::new().wait(0)), WaitMode::NonBlocking);
    assert_eq!(wait_mode(&Timeouts::new().wait(250)), WaitMode::Deadline(250));
}

#[test]
fn recycling_plans() {
    assert_eq!(recycle_plan(true, RecyclingMethod::Clean), RecyclePlan::Reject);
    assert_eq!(recycle_plan(false, RecyclingMethod::Fast), RecyclePlan::Accept);
    assert_eq!(recycle_plan(false, RecyclingMethod::Verified), RecyclePlan::Run(""));
    assert_eq!(recycle_plan(false, RecyclingMethod::Clean), RecyclePlan::Run(CLEAN_SCRIPT));
    assert_eq!(recycle_result(RecyclePlan::Reject, true), Err(Error::RecyclingError));
    assert_eq!(recycle_result(RecyclePlan::Accept, false), Ok(()));
    assert_eq!(recycle_result(RecyclePlan::Run(""), true), Ok(()));
    assert_eq!(recycle_result(RecyclePlan::Run(""), false), Err(Error::RecyclingError));
}
