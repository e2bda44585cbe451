use std::sync::Arc;

use actor_counter::gateway::{connect, Channel, ChannelBroken};
use actor_counter::owner::Counter;
use actor_counter::tally::{Event, Halt, Step, Tally};

fn runtime() -> tokio::runtime::Runtime {
    tokio::runtime::Builder::new_multi_thread().worker_threads(2).build().unwrap()
}

/// Runs the owner until it halts, and reports why and at which value.
fn own(mut counter: Counter) -> (Halt, u64) {
    loop {
        if let Step::Halted(h) = counter.serve_next() {
            return (h, counter.count());
        }
    }
}

#[test]
fn new_tally_is_zero() {
    let t = Tally::new();
    assert_eq!(t.count(), 0);
}

#[test]
fn tally_three_ups_then_read() {
    let mut t = Tally::new();
    assert_eq!(t.serve(Event::Increment), Step::Counted(1));
    assert_eq!(t.serve(Event::Increment), Step::Counted(2));
    assert_eq!(t.serve(Event::Increment), Step::Counted(3));
    assert_eq!(t.serve(Event::Read), Step::Handed(3));
    assert_eq!(t.count(), 3);
}

#[test]
fn tally_read_before_any_up() {
    let mut t = Tally::new();
    assert_eq!(t.serve(Event::Read), Step::Handed(0));
    assert_eq!(t.count(), 0);
}

#[test]
fn tally_reads_do_not_count() {
    let mut t = Tally::new();
    assert_eq!(t.serve(Event::Read), Step::Handed(0));
    assert_eq!(t.serve(Event::Increment), Step::Counted(1));
    assert_eq!(t.serve(Event::Read), Step::Handed(1));
    assert_eq!(t.serve(Event::Read), Step::Handed(1));
    assert_eq!(t.serve(Event::Increment), Step::Counted(2));
    assert_eq!(t.serve(Event::Read), Step::Handed(2));
}

#[test]
fn tally_disconnect_halts_and_keeps_value() {
    let mut t = Tally::new();
    t.serve(Event::Increment);
    assert_eq!(t.serve(Event::Disconnected), Step::Halted(Halt::Disconnected));
    assert_eq!(t.count(), 1);
    assert_eq!(t.serve(Event::Read), Step::Handed(1));
}

#[test]
fn tally_n_ups_add_n_to_earlier_read() {
    let mut t = Tally::new();
    t.serve(Event::Increment);
    t.serve(Event::Increment);
    let before = match t.serve(Event::Read) {
        Step::Handed(v) => v,
        other => panic!("unexpected {:?}", other),
    };
    for _ in 0..10 {
        t.serve(Event::Increment);
    }
    assert_eq!(t.serve(Event::Read), Step::Handed(before + 10));
}

#[test]
fn three_sequential_ups_then_get() {
    let rt = runtime();
    let (counter, channel) = connect();
    let owner = rt.spawn_blocking(move || own(counter));
    for _ in 0..3 {
        assert_eq!(channel.signal_increment(), Ok(()));
    }
    assert_eq!(channel.request_value(), Ok(3));
    drop(channel);
    assert_eq!(rt.block_on(owner).unwrap(), (Halt::Disconnected, 3));
}

#[test]
fn get_before_any_up() {
    let rt = runtime();
    let (counter, channel) = connect();
    let owner = rt.spawn_blocking(move || own(counter));
    assert_eq!(channel.request_value(), Ok(0));
    assert_eq!(channel.request_value(), Ok(0));
    drop(channel);
    assert_eq!(rt.block_on(owner).unwrap(), (Halt::Disconnected, 0));
}

#[test]
fn hundred_concurrent_ups_then_get() {
    let rt = runtime();
    let (counter, channel) = connect();
    let owner = rt.spawn_blocking(move || own(counter));
    let channel = Arc::new(channel);
    let mut callers = Vec::new();
    for _ in 0..100 {
        let c = Arc::clone(&channel);
        callers.push(rt.spawn_blocking(move || c.signal_increment()));
    }
    for caller in callers {
        assert_eq!(rt.block_on(caller).unwrap(), Ok(()));
    }
    assert_eq!(channel.request_value(), Ok(100));
    drop(channel);
    assert_eq!(rt.block_on(owner).unwrap(), (Halt::Disconnected, 100));
}

#[test]
fn concurrent_ups_and_reads_count_each_up_once() {
    let rt = runtime();
    let (counter, channel) = connect();
    let owner = rt.spawn_blocking(move || own(counter));
    let channel = Arc::new(channel);
    let mut ups = Vec::new();
    let mut reads = Vec::new();
    for _ in 0..50 {
        let c = Arc::clone(&channel);
        ups.push(rt.spawn_blocking(move || c.signal_increment()));
        let c = Arc::clone(&channel);
        reads.push(rt.spawn_blocking(move || c.request_value()));
    }
    for up in ups {
        assert_eq!(rt.block_on(up).unwrap(), Ok(()));
    }
    for read in reads {
        let v = rt.block_on(read).unwrap().unwrap();
        assert!(v <= 50);
    }
    assert_eq!(channel.request_value(), Ok(50));
    drop(channel);
    assert_eq!(rt.block_on(owner).unwrap(), (Halt::Disconnected, 50));
}

#[test]
fn reads_by_one_caller_never_go_down() {
    let rt = runtime();
    let (counter, channel) = connect();
    let owner = rt.spawn_blocking(move || own(counter));
    let channel = Arc::new(channel);
    let mut ups = Vec::new();
    for _ in 0..30 {
        let c = Arc::clone(&channel);
        ups.push(rt.spawn_blocking(move || c.signal_increment()));
    }
    let mut last: u64 = 0;
    for _ in 0..30 {
        let v = channel.request_value().unwrap();
        assert!(v >= last);
        last = v;
    }
    for up in ups {
        assert_eq!(rt.block_on(up).unwrap(), Ok(()));
    }
    assert_eq!(channel.request_value(), Ok(30));
    drop(channel);
    assert_eq!(rt.block_on(owner).unwrap(), (Halt::Disconnected, 30));
}

#[test]
fn increment_without_owner_is_broken() {
    let (counter, channel) = connect();
    drop(counter);
    assert_eq!(channel.signal_increment(), Err(ChannelBroken));
}

#[test]
fn read_without_owner_is_broken() {
    let (counter, channel) = connect();
    drop(counter);
    assert_eq!(channel.request_value(), Err(ChannelBroken));
}

#[test]
fn owner_halts_when_callers_are_gone() {
    let (counter, channel) = connect();
    drop(channel);
    assert_eq!(own(counter), (Halt::Disconnected, 0));
}

#[test]
fn channel_from_separate_ends() {
    let rt = runtime();
    let (up_sender, up_receiver) = crossbeam_channel::bounded::<()>(0);
    let (get_sender, get_receiver) = crossbeam_channel::bounded::<u64>(0);
    let counter = Counter::new(up_receiver, get_sender);
    let channel = Channel::new(up_sender, get_receiver);
    let owner = rt.spawn_blocking(move || own(counter));
    assert_eq!(channel.signal_increment(), Ok(()));
    assert_eq!(channel.request_value(), Ok(1));
    drop(channel);
    assert_eq!(rt.block_on(owner).unwrap(), (Halt::Disconnected, 1));
}
