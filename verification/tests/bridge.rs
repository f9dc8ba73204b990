use workshop_uploader::channel::{Delivery, ResultChannel};
use workshop_uploader::dispatcher::{Dispatcher, DispatcherAction, DispatcherMode, IDLE_TIMEOUT_MS};
use workshop_uploader::interest::{InterestCounter, OperationGuard};
use workshop_uploader::pending::PendingCall;

#[test]
fn a_sent_value_is_delivered_once() {
    let mut channel: ResultChannel<u32> = ResultChannel::new();
    assert_eq!(channel, ResultChannel::Waiting);
    assert_eq!(channel.receive(), Delivery::Pending);
    assert_eq!(channel.send(7), Ok(()));
    assert_eq!(channel, ResultChannel::Filled(7));
    assert_eq!(channel.receive(), Delivery::Ready(7));
    assert_eq!(channel, ResultChannel::Closed);
    assert_eq!(channel.receive(), Delivery::Closed);
    assert_eq!(channel.receive(), Delivery::Closed);
}

#[test]
fn a_second_send_is_refused() {
    let mut channel: ResultChannel<u32> = ResultChannel::new();
    assert_eq!(channel.send(7), Ok(()));
    assert_eq!(channel.send(8), Err(8));
    assert_eq!(channel.receive(), Delivery::Ready(7));
    assert_eq!(channel.send(9), Err(9));
    assert_eq!(channel.receive(), Delivery::Closed);
}

#[test]
fn sending_after_the_consumer_is_gone_hands_the_value_back() {
    let mut channel: ResultChannel<String> = ResultChannel::new();
    channel.drop_consumer();
    assert_eq!(channel, ResultChannel::Orphaned);
    assert_eq!(channel.send("late".to_string()), Err("late".to_string()));
    assert_eq!(channel, ResultChannel::Closed);
    assert_eq!(channel.receive(), Delivery::Closed);
}

#[test]
fn waiting_after_the_producer_is_gone_is_cancelled_once() {
    let mut channel: ResultChannel<u32> = ResultChannel::new();
    channel.drop_producer();
    assert_eq!(channel, ResultChannel::Abandoned);
    assert_eq!(channel.receive(), Delivery::Cancelled);
    assert_eq!(channel.receive(), Delivery::Closed);
    assert_eq!(channel.send(1), Err(1));
}

#[test]
fn dropping_the_producer_after_sending_keeps_the_value() {
    let mut channel: ResultChannel<u32> = ResultChannel::new();
    assert_eq!(channel.send(7), Ok(()));
    channel.drop_producer();
    assert_eq!(channel.receive(), Delivery::Ready(7));
}

#[test]
fn dropping_the_consumer_discards_a_value_not_taken() {
    let mut channel: ResultChannel<u32> = ResultChannel::new();
    assert_eq!(channel.send(7), Ok(()));
    channel.drop_consumer();
    assert_eq!(channel, ResultChannel::Closed);
    assert_eq!(channel.receive(), Delivery::Closed);
    let mut channel: ResultChannel<u32> = ResultChannel::new();
    channel.drop_consumer();
    channel.drop_consumer();
    assert_eq!(channel, ResultChannel::Orphaned);
    channel.drop_producer();
    assert_eq!(channel, ResultChannel::Closed);
}

#[test]
fn the_counter_counts_up_and_down_and_stops_at_zero() {
    let mut counter = InterestCounter::new();
    assert!(counter.is_zero());
    assert_eq!(counter.count(), 0);
    counter.decrement();
    assert_eq!(counter.count(), 0);
    assert!(counter.has_room());
    counter.increment();
    counter.increment();
    assert_eq!(counter.count(), 2);
    assert!(!counter.is_zero());
    counter.decrement();
    assert_eq!(counter.count(), 1);
    counter.decrement();
    counter.decrement();
    assert_eq!(counter.count(), 0);
    assert!(counter.is_zero());
}

#[test]
fn guards_hold_interest_until_released() {
    let mut counter = InterestCounter::new();
    let first = OperationGuard::acquire(&mut counter);
    let second = OperationGuard::acquire(&mut counter);
    assert_eq!(counter.count(), 2);
    first.release(&mut counter);
    assert_eq!(counter.count(), 1);
    second.release(&mut counter);
    assert!(counter.is_zero());
}

#[test]
fn the_dispatcher_pumps_exactly_while_somebody_is_interested() {
    let mut counter = InterestCounter::new();
    let mut dispatcher = Dispatcher::new();
    assert_eq!(dispatcher.current_mode(), DispatcherMode::Running);
    assert_eq!(dispatcher.step(&counter, false), DispatcherAction::Park(100));
    assert_eq!(IDLE_TIMEOUT_MS, 100);
    assert_eq!(dispatcher.current_mode(), DispatcherMode::Idle);
    assert_eq!(dispatcher.step(&counter, false), DispatcherAction::Park(100));
    counter.increment();
    assert_eq!(dispatcher.step(&counter, false), DispatcherAction::Pump);
    assert_eq!(dispatcher.current_mode(), DispatcherMode::Running);
    assert_eq!(dispatcher.step(&counter, true), DispatcherAction::Pump);
    counter.decrement();
    assert_eq!(dispatcher.step(&counter, false), DispatcherAction::Park(100));
    assert_eq!(dispatcher.current_mode(), DispatcherMode::Idle);
}

#[test]
fn the_dispatcher_retires_only_after_a_sleep_as_last_owner() {
    let counter = InterestCounter::new();
    let mut dispatcher = Dispatcher::new();
    assert_eq!(dispatcher.step(&counter, true), DispatcherAction::Park(100));
    assert_eq!(dispatcher.step(&counter, true), DispatcherAction::Retire);
    assert_eq!(dispatcher.current_mode(), DispatcherMode::Retired);
    let mut busy = InterestCounter::new();
    busy.increment();
    assert_eq!(dispatcher.step(&busy, false), DispatcherAction::Retire);
    assert_eq!(dispatcher.current_mode(), DispatcherMode::Retired);
}

#[test]
fn an_interested_dispatcher_does_not_retire_as_last_owner() {
    let mut counter = InterestCounter::new();
    let mut dispatcher = Dispatcher::new();
    assert_eq!(dispatcher.step(&counter, true), DispatcherAction::Park(100));
    counter.increment();
    assert_eq!(dispatcher.step(&counter, true), DispatcherAction::Pump);
}

#[test]
fn a_pending_call_holds_interest_until_its_result_is_sent() {
    let mut counter = InterestCounter::new();
    let mut call: PendingCall<u32> = PendingCall::begin(&mut counter);
    assert_eq!(counter.count(), 1);
    assert_eq!(call.receive(), Delivery::Pending);
    assert_eq!(counter.count(), 1);
    assert_eq!(call.complete(&mut counter, 7), Ok(()));
    assert_eq!(counter.count(), 0);
    assert_eq!(call.receive(), Delivery::Ready(7));
    assert_eq!(call.receive(), Delivery::Closed);
    call.abandon(&mut counter);
    assert_eq!(call.complete(&mut counter, 8), Err(8));
    assert_eq!(counter.count(), 0);
}

#[test]
fn an_abandoned_call_gives_its_interest_up_and_cancels() {
    let mut counter = InterestCounter::new();
    let mut other: PendingCall<u32> = PendingCall::begin(&mut counter);
    let mut call: PendingCall<u32> = PendingCall::begin(&mut counter);
    assert_eq!(counter.count(), 2);
    call.abandon(&mut counter);
    assert_eq!(counter.count(), 1);
    call.abandon(&mut counter);
    assert_eq!(counter.count(), 1);
    assert_eq!(call.receive(), Delivery::Cancelled);
    assert_eq!(other.complete(&mut counter, 1), Ok(()));
    assert_eq!(counter.count(), 0);
}

#[test]
fn a_call_nobody_waits_for_keeps_its_interest_until_the_callback_ends() {
    let mut counter = InterestCounter::new();
    let mut call: PendingCall<u32> = PendingCall::begin(&mut counter);
    call.stop_waiting();
    assert_eq!(counter.count(), 1);
    assert_eq!(call.complete(&mut counter, 7), Err(7));
    assert_eq!(counter.count(), 0);
    assert_eq!(call.receive(), Delivery::Closed);
}
