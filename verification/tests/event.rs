use retis::common::{CommonEvent, CommonEventMd, TaskEvent};
use retis::display::{
    DisplayFormat, DisplayFormatFlavor, Dissection, EventDisplay, EventFmt, FormatterConf,
    TimeFormat,
};
use retis::event::{Event, EventError, Section, SectionId};
use retis::skb::{SkbEvent, SkbNsEvent};
use retis::time::TimeSpec;

fn md() -> Section {
    Section::MdCommon(CommonEventMd {
        retis_version: "x".to_string(),
        clock_monotonic_offset: TimeSpec::new(0, 0),
    })
}

fn common(timestamp: u64) -> Section {
    Section::Common(CommonEvent { timestamp, smp_id: 0, task: None })
}

fn skb(netns: u32) -> Section {
    let mut skb = SkbEvent::default();
    skb.ns = Some(SkbNsEvent { netns });
    Section::Skb(skb)
}

fn event(sections: Vec<Section>) -> Event {
    let mut event = Event::new();
    for section in sections {
        event.insert_section(section).unwrap();
    }
    event
}

#[test]
fn section_ids_and_names() {
    assert_eq!(md().id(), SectionId::MdCommon);
    assert_eq!(common(1).id(), SectionId::Common);
    assert_eq!(skb(1).id(), SectionId::Skb);
    assert_eq!(SectionId::MdCommon.to_str(), "md_common");
    assert_eq!(SectionId::Common.to_str(), "common");
    assert_eq!(SectionId::Skb.to_str(), "skb");
    assert_eq!(SectionId::SkbTracking.to_str(), "skb_tracking");
    assert_eq!(SectionId::Kernel.to_str(), "kernel");
    assert_eq!(SectionId::UserStack.to_str(), "user_stack");
    assert_eq!(SectionId::Ct.to_str(), "ct");
}

#[test]
fn insert_binds_each_id_once() {
    let mut event = Event::new();
    assert_eq!(event.len(), 0);
    assert_eq!(event.insert_section(common(1)), Ok(()));
    assert_eq!(event.insert_section(skb(2)), Ok(()));
    assert_eq!(event.insert_section(common(3)), Err(EventError::AlreadyBound(SectionId::Common)));
    assert_eq!(event.insert_section(skb(4)), Err(EventError::AlreadyBound(SectionId::Skb)));
    assert_eq!(event.len(), 2);
    assert_eq!(event.get_section(SectionId::Common), Some(&common(1)));
    assert_eq!(event.get_section(SectionId::Skb), Some(&skb(2)));
    assert_eq!(event.section_at(1), &skb(2));
}

#[test]
fn lookup_of_a_section_that_is_not_there() {
    let event = event(vec![common(1)]);
    assert_eq!(event.get_section(SectionId::Skb), None);
    assert_eq!(event.get_section(SectionId::MdCommon), None);
    assert_eq!(event.get_section(SectionId::Kernel), None);
    assert!(event.skb().is_none());
    assert!(event.md_common().is_none());
    assert_eq!(event.common().unwrap().timestamp, 1);
}

#[test]
fn typed_lookups() {
    let event = event(vec![md(), common(5), skb(8)]);
    assert_eq!(event.md_common().unwrap().retis_version, "x");
    assert_eq!(event.common().unwrap().timestamp, 5);
    assert_eq!(event.skb().unwrap().ns, Some(SkbNsEvent { netns: 8 }));
}

fn show(event: &Event, format: &DisplayFormat) -> String {
    event.display(format, FormatterConf::new(), &Dissection::Failed)
}

#[test]
fn event_without_common_section_shows_nothing() {
    let single = DisplayFormat::new(DisplayFormatFlavor::SingleLine);
    assert_eq!(show(&Event::new(), &single), "");
    assert_eq!(show(&event(vec![md(), skb(1)]), &single), "");
}

#[test]
fn event_on_a_single_line() {
    let single = DisplayFormat::new(DisplayFormatFlavor::SingleLine);
    assert_eq!(show(&event(vec![md(), common(7), skb(1)]), &single), "7 (0) ns 1 unknown packet");
    assert_eq!(show(&event(vec![skb(1), common(7)]), &single), "7 (0) ns 1 unknown packet");
    assert_eq!(show(&event(vec![common(7)]), &single), "7 (0)");
}

#[test]
fn event_on_several_lines() {
    let multi = DisplayFormat::new(DisplayFormatFlavor::MultiLine);
    assert_eq!(
        show(&event(vec![md(), common(7), skb(1)]), &multi),
        "7 (0)\n  ns 1\n  unknown packet"
    );
}

#[test]
fn event_with_metadata() {
    let mut multi = DisplayFormat::new(DisplayFormatFlavor::MultiLine);
    multi.show_metadata();
    assert_eq!(
        show(&event(vec![md(), common(7), skb(1)]), &multi),
        "7 (0)\n  Retis version x\n  ns 1\n  unknown packet"
    );
    let mut single = DisplayFormat::new(DisplayFormatFlavor::SingleLine);
    single.show_metadata();
    assert_eq!(
        show(&event(vec![common(7), skb(1), md()]), &single),
        "7 (0) ns 1 unknown packet Retis version x"
    );
}

#[test]
fn event_at_a_deeper_level() {
    let multi = DisplayFormat::new(DisplayFormatFlavor::MultiLine);
    let text = event(vec![common(7), skb(1)]).display(
        &multi,
        FormatterConf::with_level(4),
        &Dissection::Text("IP a > b".to_string()),
    );
    assert_eq!(text, "    7 (0)\n      ns 1\n      unknown packet");
}

#[test]
fn event_that_cannot_be_displayed() {
    let mut format = DisplayFormat::new(DisplayFormatFlavor::SingleLine);
    format.set_time_format(TimeFormat::UtcDate);
    format.set_monotonic_offset(TimeSpec::new(i64::MAX, 0));
    let shown = event(vec![common(7)]);
    assert!(!shown.can_display(&format));
    assert_eq!(shown.try_display(&format, FormatterConf::new(), &Dissection::Failed), None);
    assert!(event(vec![skb(1)]).can_display(&format));
}

#[test]
fn task_is_part_of_the_first_line() {
    let task = TaskEvent { pid: 2, tgid: 1, comm: "c".to_string() };
    let first = Section::Common(CommonEvent { timestamp: 3, smp_id: 4, task: Some(task) });
    let multi = DisplayFormat::new(DisplayFormatFlavor::MultiLine);
    assert_eq!(show(&event(vec![first, skb(9)]), &multi), "3 (4) [c] 2/1\n  ns 9\n  unknown packet");
}

#[test]
fn complete_events_hold_metadata_and_the_common_section() {
    assert!(!Event::new().check_complete());
    assert!(!event(vec![common(1), skb(2)]).check_complete());
    assert!(!event(vec![md()]).check_complete());
    assert!(event(vec![skb(2), common(1), md()]).check_complete());
}
