use retis::common::{CommonEvent, CommonEventMd, TaskEvent};
use retis::display::{
    DisplayFormat, DisplayFormatFlavor, Dissection, EventDisplay, EventFmt, FormatterConf,
    TimeFormat,
};
use retis::time::TimeSpec;

fn format() -> DisplayFormat {
    DisplayFormat::new(DisplayFormatFlavor::SingleLine)
}

fn show<T: EventFmt>(what: &T, format: &DisplayFormat) -> String {
    what.display(format, FormatterConf::new(), &Dissection::Failed)
}

#[test]
fn metadata_shows_the_version() {
    let md = CommonEventMd {
        retis_version: "1.4.0".to_string(),
        clock_monotonic_offset: TimeSpec::new(0, 0),
    };
    assert_eq!(show(&md, &format()), "Retis version 1.4.0");
}

#[test]
fn common_without_task() {
    let common = CommonEvent { timestamp: 1234567, smp_id: 3, task: None };
    assert_eq!(show(&common, &format()), "1234567 (3)");
}

#[test]
fn common_with_task_of_a_thread() {
    let task = TaskEvent { pid: 71, tgid: 70, comm: "worker".to_string() };
    let common = CommonEvent { timestamp: 9, smp_id: 0, task: Some(task) };
    assert_eq!(show(&common, &format()), "9 (0) [worker] 71/70");
}

#[test]
fn common_with_task_of_a_group_leader() {
    let task = TaskEvent { pid: 70, tgid: 70, comm: "main".to_string() };
    let common = CommonEvent { timestamp: 9, smp_id: 12, task: Some(task) };
    assert_eq!(show(&common, &format()), "9 (12) [main] 70");
}

#[test]
fn task_default_is_empty() {
    let task = TaskEvent::default();
    assert_eq!((task.pid, task.tgid, task.comm.as_str()), (0, 0, ""));
}

#[test]
fn common_as_a_date() {
    let mut format = format();
    format.set_time_format(TimeFormat::UtcDate);
    format.set_monotonic_offset(TimeSpec::new(1431648000, 0));
    let common = CommonEvent { timestamp: 1_500_000_000, smp_id: 1, task: None };
    assert!(common.can_display(&format));
    assert_eq!(show(&common, &format), "2015-05-15 00:00:01.500000 (1)");
    assert_eq!(
        common.wall_clock(TimeSpec::new(1431648000, 0)).unwrap(),
        "2015-05-15 00:00:01.500000"
    );
}

#[test]
fn date_without_offset_falls_back_to_the_timestamp() {
    let mut format = format();
    format.set_time_format(TimeFormat::UtcDate);
    let common = CommonEvent { timestamp: 77, smp_id: 1, task: None };
    assert!(common.can_display(&format));
    assert_eq!(show(&common, &format), "77 (1)");
}

#[test]
fn timestamp_without_a_date_cannot_be_displayed() {
    let mut format = format();
    format.set_time_format(TimeFormat::UtcDate);
    format.set_monotonic_offset(TimeSpec::new(i64::MAX, 0));
    let common = CommonEvent { timestamp: 2_000_000_000, smp_id: 1, task: None };
    assert!(!common.can_display(&format));
    assert_eq!(common.try_display(&format, FormatterConf::new(), &Dissection::Failed), None);
    let huge = CommonEvent { timestamp: u64::MAX, smp_id: 1, task: None };
    format.set_monotonic_offset(TimeSpec::new(0, 0));
    assert!(!huge.can_display(&format));
    assert_eq!(huge.wall_clock(TimeSpec::new(0, 0)), None);
}

#[test]
fn try_display_needs_room_for_one_more_level() {
    let common = CommonEvent { timestamp: 1, smp_id: 0, task: None };
    let conf = FormatterConf::with_level(usize::MAX - 1);
    assert_eq!(common.try_display(&format(), conf, &Dissection::Failed), None);
    assert_eq!(
        common.try_display(&format(), FormatterConf::with_level(1), &Dissection::Failed),
        Some(" 1 (0)".to_string())
    );
}
