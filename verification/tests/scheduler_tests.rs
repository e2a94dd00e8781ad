use claw10::domain::AgentId;
use claw10::scheduler::{
    schedule_due_at, AgentSchedule, ScheduleService, SchedulerError, EARLIEST_CHECK_MILLIS, LATEST_CHECK_MILLIS,
};

fn sched(cron: &str, tz: &str) -> AgentSchedule {
    AgentSchedule { cron: cron.to_string(), timezone: tz.to_string() }
}

#[test]
fn add_and_list_schedules_in_order() {
    let mut svc = ScheduleService::new();
    let a = AgentId(5);
    svc.add_schedule(&a, sched("0 * * * * *", "UTC")).ok().unwrap();
    svc.add_schedule(&a, sched("0 0 * * * *", "Europe/Berlin")).ok().unwrap();
    let list = svc.list_schedules(&a).ok().unwrap();
    assert_eq!(list.len(), 2);
    assert_eq!(list[0].cron, "0 * * * * *");
    assert_eq!(list[1].timezone, "Europe/Berlin");
    assert!(svc.list_schedules(&AgentId(6)).ok().unwrap().is_empty());
}

#[test]
fn invalid_cron_is_refused() {
    let mut svc = ScheduleService::new();
    match svc.add_schedule(&AgentId(1), sched("not a cron", "UTC")) {
        Err(SchedulerError::InvalidCron(_)) => {},
        _ => panic!("expected an invalid cron error"),
    }
    assert!(svc.list_schedules(&AgentId(1)).ok().unwrap().is_empty());
}

#[test]
fn invalid_timezone_is_refused() {
    let mut svc = ScheduleService::new();
    match svc.add_schedule(&AgentId(1), sched("0 * * * * *", "Mars/Olympus")) {
        Err(SchedulerError::InvalidTimezone(m)) => assert_eq!(m, "failed to parse timezone"),
        _ => panic!("expected an invalid timezone error"),
    }
}

#[test]
fn remove_schedules() {
    let mut svc = ScheduleService::new();
    let a = AgentId(9);
    match svc.remove_schedule(&a, 0) {
        Err(SchedulerError::AgentNotFound(id)) => assert_eq!(id, "00000000-0000-0000-0000-000000000009"),
        _ => panic!("expected agent not found"),
    }
    svc.add_schedule(&a, sched("0 * * * * *", "UTC")).ok().unwrap();
    svc.add_schedule(&a, sched("0 0 * * * *", "UTC")).ok().unwrap();
    match svc.remove_schedule(&a, 2) {
        Err(e) => assert_eq!(
            e.to_string(),
            "schedule not found for agent 00000000-0000-0000-0000-000000000009: 2"
        ),
        _ => panic!("expected schedule not found"),
    }
    svc.remove_schedule(&a, 0).ok().unwrap();
    let list = svc.list_schedules(&a).ok().unwrap();
    assert_eq!(list.len(), 1);
    assert_eq!(list[0].cron, "0 0 * * * *");
    svc.remove_schedule(&a, 0).ok().unwrap();
    assert!(matches!(svc.remove_schedule(&a, 0), Err(SchedulerError::AgentNotFound(_))));
}

#[test]
fn due_within_a_minute() {
    assert!(schedule_due_at(Some(1_000_000), 1_000_000));
    assert!(schedule_due_at(Some(1_060_999), 1_000_000));
    assert!(!schedule_due_at(Some(1_061_000), 1_000_000));
    assert!(schedule_due_at(Some(939_001), 1_000_000));
    assert!(!schedule_due_at(None, 1_000_000));
}

#[test]
fn unparsable_schedules_are_never_due() {
    assert!(!ScheduleService::is_schedule_due(&sched("bad", "UTC"), 0));
    assert!(!ScheduleService::is_schedule_due(&sched("0 * * * * *", "Nowhere"), 0));
}

#[test]
fn due_schedules_come_from_the_table() {
    let mut svc = ScheduleService::new();
    svc.add_schedule(&AgentId(2), sched("* * * * * *", "UTC")).ok().unwrap();
    svc.add_schedule(&AgentId(1), sched("0 0 0 1 1 * *", "UTC")).ok().unwrap();
    svc.add_schedule(&AgentId(2), sched("0 0 0 1 7 * *", "UTC")).ok().unwrap();
    // 1999-12-31T23:59:30Z: the new year fires 30 seconds later.
    let now = 946_684_770_000;
    let due = svc.get_due_schedules(now).ok().unwrap();
    let seen: Vec<(u128, String)> = due.iter().map(|d| (d.agent_id.0, d.schedule.cron.clone())).collect();
    assert_eq!(seen, vec![(1, "0 0 0 1 1 * *".to_string()), (2, "* * * * * *".to_string())]);
}

#[test]
fn a_schedule_is_due_within_a_minute_of_the_given_time() {
    let new_year = sched("0 0 0 1 1 * *", "UTC");
    assert!(ScheduleService::is_schedule_due(&new_year, 946_684_770_000));
    assert!(!ScheduleService::is_schedule_due(&new_year, 946_684_700_000));
    // In Jakarta (UTC+7) the new year came seven hours earlier.
    let jakarta = sched("0 0 0 1 1 * *", "Asia/Jakarta");
    assert!(ScheduleService::is_schedule_due(&jakarta, 946_659_570_000));
    assert!(!ScheduleService::is_schedule_due(&jakarta, 946_684_770_000));
}

#[test]
fn scheduler_error_messages() {
    assert_eq!(SchedulerError::InvalidCron("x".into()).to_string(), "invalid cron expression: x");
    assert_eq!(SchedulerError::Other("x".into()).to_string(), "x");
}

#[test]
fn schedules_can_be_checked_up_to_the_calendar_limits() {
    let every_second = sched("* * * * * *", "Pacific/Kiritimati");
    assert!(!ScheduleService::is_schedule_due(&every_second, LATEST_CHECK_MILLIS));
    assert!(!ScheduleService::is_schedule_due(&sched("* * * * * *", "Etc/GMT+12"), EARLIEST_CHECK_MILLIS));
}
