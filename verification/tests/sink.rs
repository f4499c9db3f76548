use retis::common::{CommonEvent, CommonEventMd};
use retis::display::{DisplayFormat, DisplayFormatFlavor, Dissection, TimeFormat};
use retis::event::{Event, Section};
use retis::sink::{EventSeries, PrintSeries, PrintSingle, PrintSingleFormat, SinkError};
use retis::skb::{RawPacket, SkbEvent, SkbNsEvent, SkbPacketEvent};
use retis::time::TimeSpec;

fn md(offset: TimeSpec) -> Section {
    Section::MdCommon(CommonEventMd {
        retis_version: "x".to_string(),
        clock_monotonic_offset: offset,
    })
}

fn common(timestamp: u64) -> Section {
    Section::Common(CommonEvent { timestamp, smp_id: 0, task: None })
}

fn skb(netns: u32, packet: bool) -> Section {
    let mut skb = SkbEvent::default();
    skb.ns = Some(SkbNsEvent { netns });
    if packet {
        skb.packet =
            Some(SkbPacketEvent { len: 2, capture_len: 2, packet: RawPacket(vec![1, 2]) });
    }
    Section::Skb(skb)
}

fn event(sections: Vec<Section>) -> Event {
    let mut event = Event::new();
    for section in sections {
        event.insert_section(section).unwrap();
    }
    event
}

fn text(flavor: DisplayFormatFlavor) -> PrintSingleFormat {
    PrintSingleFormat::Text(DisplayFormat::new(flavor))
}

#[test]
fn single_line_events_end_with_one_line_break() {
    let mut sink = PrintSingle::new(text(DisplayFormatFlavor::SingleLine));
    let first = event(vec![common(1), skb(4, false)]);
    assert_eq!(sink.process_one(&first, &Dissection::Failed), Ok(()));
    assert_eq!(sink.process_one(&event(vec![common(2)]), &Dissection::Failed), Ok(()));
    assert_eq!(sink.flush(), "1 (0) ns 4 unknown packet\n2 (0)\n");
    assert_eq!(sink.flush(), "");
}

#[test]
fn multi_line_events_end_with_a_blank_line() {
    let mut sink = PrintSingle::new(text(DisplayFormatFlavor::MultiLine));
    let shown = event(vec![common(1), skb(4, true)]);
    let line = Dissection::Text("IP a > b".to_string());
    assert_eq!(sink.process_one(&shown, &line), Ok(()));
    assert_eq!(sink.flush(), "1 (0)\n  ns 4\n  IP a > b\n\n");
}

#[test]
fn events_that_show_nothing_write_nothing() {
    let mut sink = PrintSingle::new(text(DisplayFormatFlavor::MultiLine));
    assert_eq!(sink.process_one(&event(vec![skb(4, false)]), &Dissection::Failed), Ok(()));
    assert_eq!(sink.flush(), "");
}

fn dated() -> PrintSingleFormat {
    let mut format = DisplayFormat::new(DisplayFormatFlavor::SingleLine);
    format.set_time_format(TimeFormat::UtcDate);
    PrintSingleFormat::Text(format)
}

#[test]
fn single_binds_the_clock_offset_of_the_event() {
    let mut sink = PrintSingle::new(dated());
    // Without metadata nothing is bound: the timestamp is shown.
    assert_eq!(sink.process_one(&event(vec![common(5)]), &Dissection::Failed), Ok(()));
    let with_md = event(vec![md(TimeSpec::new(1431648000, 0)), common(1_000_000_000)]);
    assert_eq!(sink.process_one(&with_md, &Dissection::Failed), Ok(()));
    // The offset that was bound last stays.
    assert_eq!(sink.process_one(&event(vec![common(0)]), &Dissection::Failed), Ok(()));
    assert_eq!(
        sink.flush(),
        "5 (0)\n2015-05-15 00:00:01.000000 (0)\n2015-05-15 00:00:00.000000 (0)\n"
    );
}

#[test]
fn single_reports_a_timestamp_without_a_date() {
    let mut sink = PrintSingle::new(dated());
    assert_eq!(sink.process_one(&event(vec![common(5)]), &Dissection::Failed), Ok(()));
    let broken = event(vec![md(TimeSpec::new(i64::MAX, 0)), common(2_000_000_000)]);
    assert_eq!(sink.process_one(&broken, &Dissection::Failed), Err(SinkError::Time));
    // The sink is as it was: nothing more is pending, no offset is bound.
    assert_eq!(sink.process_one(&event(vec![common(6)]), &Dissection::Failed), Ok(()));
    assert_eq!(sink.flush(), "5 (0)\n6 (0)\n");
}

#[test]
fn minimal_event_as_json() {
    let mut sink = PrintSingle::new(PrintSingleFormat::Json);
    let minimal = event(vec![md(TimeSpec::new(0, 0)), common(1)]);
    assert_eq!(sink.process_one(&minimal, &Dissection::Failed), Ok(()));
    assert_eq!(
        sink.flush(),
        "{\"md_common\":{\"retis_version\":\"x\",\"clock_monotonic_offset\":{\"sec\":0,\"nsec\":0}},\
         \"common\":{\"timestamp\":1,\"smp_id\":0,\"task\":null}}\n"
    );
}

fn series(events: Vec<Event>) -> EventSeries {
    EventSeries { events }
}

#[test]
fn series_of_two_events_on_several_lines() {
    let mut sink = PrintSeries::new(text(DisplayFormatFlavor::MultiLine));
    let group =
        series(vec![event(vec![common(1), skb(4, false)]), event(vec![common(2), skb(5, true)])]);
    let packets = vec![Dissection::Failed, Dissection::Text("IP a > b".to_string())];
    assert_eq!(sink.process_one(&group, &packets), Ok(()));
    assert_eq!(
        sink.flush(),
        "1 (0)\n  ns 4\n  unknown packet\n    + 2 (0)\n      ns 5\n      IP a > b\n\n"
    );
}

#[test]
fn series_of_three_events_on_single_lines() {
    let mut sink = PrintSeries::new(text(DisplayFormatFlavor::SingleLine));
    let group = series(vec![
        event(vec![common(1)]),
        event(vec![common(2), skb(5, false)]),
        event(vec![common(3)]),
    ]);
    assert_eq!(sink.process_one(&group, &vec![]), Ok(()));
    assert_eq!(sink.flush(), "1 (0)\n    + 2 (0) ns 5 unknown packet\n    + 3 (0)\n\n");
}

#[test]
fn series_without_anything_to_show_writes_nothing() {
    let mut sink = PrintSeries::new(text(DisplayFormatFlavor::MultiLine));
    assert_eq!(sink.process_one(&series(vec![]), &vec![]), Ok(()));
    assert_eq!(sink.process_one(&series(vec![event(vec![skb(1, false)])]), &vec![]), Ok(()));
    assert_eq!(sink.flush(), "");
}

#[test]
fn series_starts_with_the_first_event_that_shows_something() {
    let mut sink = PrintSeries::new(text(DisplayFormatFlavor::SingleLine));
    let group = series(vec![
        event(vec![skb(1, false)]),
        event(vec![common(2)]),
        event(vec![skb(3, false)]),
        event(vec![common(4)]),
    ]);
    assert_eq!(sink.process_one(&group, &vec![]), Ok(()));
    assert_eq!(sink.flush(), "2 (0)\n\n    + 4 (0)\n\n");
}

#[test]
fn series_with_a_timestamp_without_a_date_writes_nothing() {
    let mut sink = PrintSeries::new(dated());
    let group = series(vec![
        event(vec![common(1)]),
        event(vec![md(TimeSpec::new(i64::MAX, 0)), common(2_000_000_000)]),
    ]);
    assert_eq!(sink.process_one(&group, &vec![]), Err(SinkError::Time));
    assert_eq!(sink.flush(), "");
    assert_eq!(sink.process_one(&series(vec![event(vec![common(3)])]), &vec![]), Ok(()));
    assert_eq!(sink.flush(), "3 (0)\n\n");
}

#[test]
fn series_as_json() {
    let mut sink = PrintSeries::new(PrintSingleFormat::Json);
    let group = series(vec![event(vec![common(1)]), event(vec![common(2)])]);
    assert_eq!(sink.process_one(&group, &vec![]), Ok(()));
    assert_eq!(
        sink.flush(),
        "[{\"common\":{\"timestamp\":1,\"smp_id\":0,\"task\":null}},\
         {\"common\":{\"timestamp\":2,\"smp_id\":0,\"task\":null}}]\n"
    );
    assert_eq!(series(vec![]).to_json(), "[]");
}
