use tracked_counter::actor::Actor;
use tracked_counter::actor::Teardown;
use tracked_counter::actor::ValueTooLarge;
use tracked_counter::actor::teardown_after_save;
use tracked_counter::counter::Counter;
use tracked_counter::counter::DEFAULT_VALUE;
use tracked_counter::natural::Natural;

fn upgraded(actor: &Actor) -> Actor {
    let saved = actor.pre_upgrade();
    Actor::post_upgrade(Some(saved))
}

#[test]
fn new_cell_holds_five() {
    assert_eq!(DEFAULT_VALUE, 5);
    assert_eq!(Counter::default().read(), 5);
    assert_eq!(Actor::init().get(), Natural::from_u64(5));
}

#[test]
fn write_then_read() {
    let mut cell = Counter::default();
    cell.write(42);
    assert_eq!(cell.read(), 42);
    cell.write(0);
    assert_eq!(cell.read(), 0);
    cell.write(u64::MAX);
    assert_eq!(cell.read(), u64::MAX);
}

#[test]
fn increment_adds_one() {
    let mut cell = Counter::default();
    cell.increment();
    assert_eq!(cell.read(), 6);
}

#[test]
fn increment_wraps_at_the_maximum() {
    let mut cell = Counter::default();
    cell.write(u64::MAX);
    cell.increment();
    assert_eq!(cell.read(), 0);
    cell.increment();
    assert_eq!(cell.read(), 1);
}

#[test]
fn n_increments_add_n() {
    for (start, times) in [(0u64, 0u64), (5, 1), (5, 1000), (u64::MAX - 3, 10), (u64::MAX, 1)] {
        let mut cell = Counter::default();
        cell.write(start);
        for _ in 0..times {
            cell.increment();
        }
        assert_eq!(cell.read(), start.wrapping_add(times));
    }
    let mut cell = Counter::default();
    cell.write(u64::MAX - 3);
    for _ in 0..10 {
        cell.increment();
    }
    assert_eq!(cell.read(), 6);
}

#[test]
fn actor_inc_wraps_at_the_maximum() {
    let mut actor = Actor::init();
    assert_eq!(actor.set(&Natural::from_u64(u64::MAX)), Ok(()));
    actor.inc();
    assert_eq!(actor.get().to_u64(), Some(0));
}

#[test]
fn snapshot_is_the_value() {
    let mut cell = Counter::default();
    assert_eq!(cell.snapshot(), 5);
    cell.write(77);
    assert_eq!(cell.snapshot(), 77);
    assert_eq!(cell.read(), 77);
}

#[test]
fn restore_overwrites_with_the_snapshot() {
    let mut cell = Counter::default();
    cell.restore(Some(9));
    assert_eq!(cell.read(), 9);
    cell.restore(None);
    assert_eq!(cell.read(), 9);
}

#[test]
fn written_value_survives_teardown_and_reconstruction() {
    for value in [0u64, 1, 5, 42, 1 << 32, u64::MAX - 1, u64::MAX] {
        let mut actor = Actor::init();
        assert_eq!(actor.set(&Natural::from_u64(value)), Ok(()));
        let rebuilt = upgraded(&actor);
        assert_eq!(rebuilt.get(), Natural::from_u64(value));
        assert_eq!(rebuilt.get().to_u64(), Some(value));
    }
}

#[test]
fn value_survives_any_number_of_upgrades() {
    let mut actor = Actor::init();
    assert_eq!(actor.set(&Natural::from_u64(1234)), Ok(()));
    let actor = upgraded(&upgraded(&upgraded(&actor)));
    assert_eq!(actor.get().to_u64(), Some(1234));
}

#[test]
fn restore_without_snapshot_yields_five() {
    let actor = Actor::post_upgrade(None);
    assert_eq!(actor.get().to_u64(), Some(5));
}

#[test]
fn set_refuses_what_the_cell_cannot_hold() {
    let mut actor = Actor::init();
    let too_large = Natural::from_bytes_be(vec![1, 0, 0, 0, 0, 0, 0, 0, 0]);
    assert_eq!(actor.set(&too_large), Err(ValueTooLarge));
    assert_eq!(actor.get().to_u64(), Some(5));
    let largest = Natural::from_bytes_be(vec![255; 8]);
    assert_eq!(actor.set(&largest), Ok(()));
    assert_eq!(actor.get().to_u64(), Some(u64::MAX));
}

#[test]
fn teardown_proceeds_when_saved() {
    assert_eq!(teardown_after_save(Ok(())), Teardown::Proceed);
}

#[test]
fn teardown_aborts_when_saving_failed() {
    assert_eq!(
        teardown_after_save(Err(String::from("out of stable memory"))),
        Teardown::Abort(String::from("[pre_upgrade] stable save error: out of stable memory"))
    );
    assert_eq!(
        teardown_after_save(Err(String::new())),
        Teardown::Abort(String::from("[pre_upgrade] stable save error: "))
    );
}

#[test]
fn end_to_end() {
    let mut actor = Actor::post_upgrade(None);
    assert_eq!(actor.get().to_u64(), Some(5));
    assert_eq!(actor.set(&Natural::from_u64(42)), Ok(()));
    actor.inc();
    assert_eq!(actor.get().to_u64(), Some(43));
    let saved = actor.pre_upgrade();
    assert_eq!(teardown_after_save(Ok(())), Teardown::Proceed);
    let rebuilt = Actor::post_upgrade(Some(saved));
    assert_eq!(rebuilt.get().to_u64(), Some(43));
}
