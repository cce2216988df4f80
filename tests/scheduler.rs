use cert_manager::schedule::{
    retry_secs, wait_days, SchedAction, SchedEvent, Scheduler,
};

#[test]
fn no_certificate_means_no_wait() {
    assert_eq!(wait_days(None), 0);
    assert_eq!(wait_days(Some(0)), 0);
    assert_eq!(wait_days(Some(1)), 0);
    assert_eq!(wait_days(Some(-5)), 0);
}

#[test]
fn wait_is_one_day_short_of_expiry() {
    assert_eq!(wait_days(Some(2)), 1);
    assert_eq!(wait_days(Some(10)), 9);
    assert_eq!(wait_days(Some(90)), 89);
}

#[test]
fn huge_validity_is_exact() {
    assert_eq!(wait_days(Some(i64::MAX)), (i64::MAX - 1) as u64);
}

#[test]
fn ten_days_left_sleeps_nine_days() {
    let mut s = Scheduler::new(1);
    assert_eq!(s.awaited(), SchedAction::QueryValidity);
    assert_eq!(s.step(SchedEvent::Validity(Some(10))), SchedAction::Sleep { days: 9, secs: 0 });
}

#[test]
fn missing_certificate_renews_at_once_and_restarts_each_unit_in_order() {
    let mut s = Scheduler::new(3);
    assert_eq!(s.step(SchedEvent::Validity(None)), SchedAction::Sleep { days: 0, secs: 0 });
    assert_eq!(s.step(SchedEvent::Woke), SchedAction::Renew);
    assert_eq!(s.step(SchedEvent::Renewed(Some(90))), SchedAction::Restart(0));
    assert_eq!(s.step(SchedEvent::Restarted(true)), SchedAction::Restart(1));
    assert_eq!(s.step(SchedEvent::Restarted(true)), SchedAction::Restart(2));
    assert_eq!(s.step(SchedEvent::Restarted(true)), SchedAction::Sleep { days: 89, secs: 0 });
    assert!(s.failed_units().is_empty());
}

#[test]
fn no_units_means_straight_back_to_sleep() {
    let mut s = Scheduler::new(0);
    assert_eq!(s.step(SchedEvent::Validity(Some(1))), SchedAction::Sleep { days: 0, secs: 0 });
    assert_eq!(s.step(SchedEvent::Woke), SchedAction::Renew);
    assert_eq!(s.step(SchedEvent::Renewed(Some(30))), SchedAction::Sleep { days: 29, secs: 0 });
}

#[test]
fn restart_failures_are_collected_and_do_not_block() {
    let mut s = Scheduler::new(3);
    s.step(SchedEvent::Validity(None));
    s.step(SchedEvent::Woke);
    assert_eq!(s.step(SchedEvent::Renewed(Some(60))), SchedAction::Restart(0));
    assert_eq!(s.step(SchedEvent::Restarted(false)), SchedAction::Restart(1));
    assert_eq!(s.step(SchedEvent::Restarted(true)), SchedAction::Restart(2));
    assert_eq!(s.step(SchedEvent::Restarted(false)), SchedAction::Sleep { days: 59, secs: 0 });
    assert_eq!(s.failed_units(), vec![0u64, 2]);
    // The next successful cycle starts a fresh list.
    assert_eq!(s.step(SchedEvent::Woke), SchedAction::Renew);
    s.step(SchedEvent::Renewed(Some(60)));
    assert!(s.failed_units().is_empty());
}

#[test]
fn retry_delay_doubles_up_to_cap() {
    assert_eq!(retry_secs(0), 3600);
    assert_eq!(retry_secs(1), 3600);
    assert_eq!(retry_secs(2), 7200);
    assert_eq!(retry_secs(3), 14400);
    assert_eq!(retry_secs(4), 28800);
    assert_eq!(retry_secs(5), 43200);
    assert_eq!(retry_secs(16), 43200);
    assert_eq!(retry_secs(17), 43200);
    assert_eq!(retry_secs(u64::MAX), 43200);
}

#[test]
fn failed_cycles_back_off_then_reset() {
    let mut s = Scheduler::new(0);
    s.step(SchedEvent::Validity(None));
    assert_eq!(s.step(SchedEvent::Woke), SchedAction::Renew);
    assert_eq!(s.step(SchedEvent::RenewFailed), SchedAction::Sleep { days: 0, secs: 3600 });
    assert_eq!(s.step(SchedEvent::Woke), SchedAction::Renew);
    assert_eq!(s.step(SchedEvent::RenewFailed), SchedAction::Sleep { days: 0, secs: 7200 });
    assert_eq!(s.step(SchedEvent::Woke), SchedAction::Renew);
    assert_eq!(s.step(SchedEvent::Renewed(Some(3))), SchedAction::Sleep { days: 2, secs: 0 });
    assert_eq!(s.step(SchedEvent::Woke), SchedAction::Renew);
    assert_eq!(s.step(SchedEvent::RenewFailed), SchedAction::Sleep { days: 0, secs: 3600 });
}

#[test]
fn many_failures_stay_capped() {
    let mut s = Scheduler::new(0);
    s.step(SchedEvent::Validity(None));
    let mut last = SchedAction::Exit;
    for _ in 0..40 {
        s.step(SchedEvent::Woke);
        last = s.step(SchedEvent::RenewFailed);
    }
    assert_eq!(last, SchedAction::Sleep { days: 0, secs: 43200 });
}

#[test]
fn shutdown_exits_from_sleep_and_stays_stopped() {
    let mut s = Scheduler::new(2);
    assert_eq!(s.step(SchedEvent::Validity(Some(40))), SchedAction::Sleep { days: 39, secs: 0 });
    assert_eq!(s.step(SchedEvent::Shutdown), SchedAction::Exit);
    assert_eq!(s.step(SchedEvent::Woke), SchedAction::Exit);
    assert_eq!(s.awaited(), SchedAction::Exit);
}

#[test]
fn unexpected_event_repeats_awaited_action() {
    let mut s = Scheduler::new(2);
    assert_eq!(s.step(SchedEvent::Woke), SchedAction::QueryValidity);
    assert_eq!(s.step(SchedEvent::Validity(Some(5))), SchedAction::Sleep { days: 4, secs: 0 });
    assert_eq!(s.step(SchedEvent::Restarted(true)), SchedAction::Sleep { days: 4, secs: 0 });
    assert_eq!(s.step(SchedEvent::Woke), SchedAction::Renew);
    assert_eq!(s.step(SchedEvent::Woke), SchedAction::Renew);
}

#[test]
fn renewal_without_certificate_backs_off_and_restarts_nothing() {
    let mut s = Scheduler::new(2);
    assert_eq!(s.step(SchedEvent::Validity(None)), SchedAction::Sleep { days: 0, secs: 0 });
    assert_eq!(s.step(SchedEvent::Woke), SchedAction::Renew);
    assert_eq!(s.step(SchedEvent::Renewed(None)), SchedAction::Sleep { days: 0, secs: 3600 });
    assert_eq!(s.step(SchedEvent::Woke), SchedAction::Renew);
    assert_eq!(s.step(SchedEvent::Renewed(None)), SchedAction::Sleep { days: 0, secs: 7200 });
    assert_eq!(s.step(SchedEvent::Woke), SchedAction::Renew);
    assert_eq!(s.step(SchedEvent::Renewed(Some(90))), SchedAction::Restart(0));
}
