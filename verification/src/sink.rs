//! Sinks: what is written out for an event, or for a series of events that
//! belong together, as text or as JSON.

use vstd::prelude::*;
use vstd::string::StringExecFns;

use crate::display::{
    indented, DisplayFormat, DisplayFormatFlavor, Dissection, EventDisplay, EventFmt, Formatter,
    FormatterConf,
};
use crate::event::{lemma_find_has_id, Event, Section, SectionId};
use crate::json::{array, JsonList};

verus! {

/// What a sink writes: text under display options, or JSON.
#[derive(Debug, Clone, Copy)]
pub enum PrintSingleFormat {
    Text(DisplayFormat),
    Json,
}

/// Why a sink wrote nothing for an event.
#[derive(Debug, Clone, Copy, PartialEq, Eq, Structural)]
pub enum SinkError {
    /// The display asks for wall-clock dates and the timestamp of the event
    /// has none: its clocks are out of order.
    Time,
}

/// Events that belong together, in the order they happened.
#[derive(Debug)]
pub struct EventSeries {
    pub events: Vec<Event>,
}

impl EventSeries {
    /// An array of the events.
    pub open spec fn json(&self) -> Seq<char> {
        array(self.events@.map_values(|event: Event| event.json()))
    }

    /// The series as JSON.
    pub fn to_json(&self) -> (r: String)
        ensures
            r@ == self.json(),
    {
        let mut list = JsonList::new();
        let mut i: usize = 0;
        while i < self.events.len()
            invariant
                i <= self.events.len(),
                list.wf(),
                list.items() == self.events@.take(i as int).map_values(|event: Event| event.json()),
            decreases self.events.len() - i,
        {
            list.item(self.events[i].to_json().as_str());
            i += 1;
            assert(list.items() =~= self.events@.take(i as int).map_values(
                |event: Event| event.json(),
            ));
        }
        assert(self.events@.take(i as int) =~= self.events@);
        list.into_array()
    }
}

/// The display options for an event: the options given, with the clock
/// offset of the event's metadata bound where the event has metadata.
pub open spec fn bound(format: DisplayFormat, event: &Event) -> DisplayFormat {
    match event.section(SectionId::MdCommon) {
        Some(Section::MdCommon(md)) => DisplayFormat {
            monotonic_offset: Some(md.clock_monotonic_offset),
            ..format
        },
        _ => format,
    }
}

/// Binds the clock offset of the event's metadata.
pub fn bind(format: &mut DisplayFormat, event: &Event)
    ensures
        *final(format) == bound(*old(format), event),
{
    proof {
        lemma_find_has_id(event@, SectionId::MdCommon);
    }
    if let Some(common) = event.md_common() {
        format.set_monotonic_offset(common.clock_monotonic_offset);
    }
}

/// What ends the text of an event: one line break on a single line, a
/// blank line after several.
pub open spec fn terminator(flavor: DisplayFormatFlavor) -> Seq<char> {
    match flavor {
        DisplayFormatFlavor::SingleLine => seq!['\n'],
        DisplayFormatFlavor::MultiLine => seq!['\n', '\n'],
    }
}

/// The text of one event under options that are bound to it: the event from
/// the beginning of a line at level zero, then the terminator. An event that
/// shows nothing gives no text at all.
pub open spec fn single_text(event: &Event, format: &DisplayFormat, packet: &Dissection) -> Seq<
    char,
> {
    let body = event.shown(format, packet, 0, true);
    if body.len() == 0 {
        body
    } else {
        body + terminator(format.flavor)
    }
}

/// Handles events one by one. What is written collects in the sink until
/// `flush` hands it over.
pub struct PrintSingle {
    out: String,
    format: PrintSingleFormat,
}

impl PrintSingle {
    /// What was written and not handed over yet.
    pub closed spec fn pending(&self) -> Seq<char> {
        self.out@
    }

    /// The format, with the clock offset that was bound last.
    pub closed spec fn format(&self) -> PrintSingleFormat {
        self.format
    }

    /// A sink with nothing written.
    pub fn new(format: PrintSingleFormat) -> (r: Self)
        ensures
            r.pending() == Seq::<char>::empty(),
            r.format() == format,
    {
        PrintSingle { out: String::new(), format }
    }

    /// What `process_one` adds for an event, and the format it leaves; `None`
    /// where the event cannot be shown.
    pub open spec fn step(
        format: PrintSingleFormat,
        event: &Event,
        packet: &Dissection,
    ) -> Option<(Seq<char>, PrintSingleFormat)> {
        match format {
            PrintSingleFormat::Text(options) => {
                let options = bound(options, event);
                if event.can_show(&options) {
                    Some((single_text(event, &options, packet), PrintSingleFormat::Text(options)))
                } else {
                    None
                }
            },
            PrintSingleFormat::Json => Some((event.json() + seq!['\n'], format)),
        }
    }

    /// Process events one by one (format & print). `packet` is what the
    /// disassembler made of the raw packet of the event. An event that
    /// cannot be shown leaves the sink as it was.
    pub fn process_one(&mut self, e: &Event, packet: &Dissection) -> (r: Result<(), SinkError>)
        ensures
            match Self::step(old(self).format(), e, packet) {
                Some((text, format)) => r is Ok && final(self).pending() == old(self).pending()
                    + text && final(self).format() == format,
                None => r == Err::<(), SinkError>(SinkError::Time) && final(self).pending() == old(
                    self,
                ).pending() && final(self).format() == old(self).format(),
            },
    {
        match self.format {
            PrintSingleFormat::Text(options) => {
                let mut format = options;
                bind(&mut format, e);
                if !e.can_display(&format) {
                    return Err(SinkError::Time);
                }
                let mut event = e.display(&format, FormatterConf::new(), packet);
                if !event.as_str().is_empty() {
                    match format.flavor {
                        DisplayFormatFlavor::SingleLine => event.push('\n'),
                        DisplayFormatFlavor::MultiLine => {
                            event.push('\n');
                            event.push('\n');
                        },
                    }
                }
                assert(event@ =~= single_text(e, &format, packet));
                self.format = PrintSingleFormat::Text(format);
                self.out.append(event.as_str());
            },
            PrintSingleFormat::Json => {
                let mut event = e.to_json();
                event.push('\n');
                self.out.append(event.as_str());
            },
        }
        Ok(())
    }

    /// Hands over what was written since the last call.
    pub fn flush(&mut self) -> (r: String)
        ensures
            r@ == old(self).pending(),
            final(self).pending() == Seq::<char>::empty(),
            final(self).format() == old(self).format(),
    {
        let mut out = String::new();
        core::mem::swap(&mut self.out, &mut out);
        out
    }
}

/// What the disassembler made of the packet of the event at position `i`;
/// an event that has no entry is shown as one whose packet could not be
/// disassembled.
pub open spec fn packet_of(packets: Seq<Dissection>, i: int) -> Dissection {
    if 0 <= i < packets.len() {
        packets[i]
    } else {
        Dissection::Failed
    }
}

/// An event after the first of its series: `+ ` at level four, then the
/// event. An event that shows nothing gives no text at all.
pub open spec fn continued(event: &Event, format: &DisplayFormat, packet: &Dissection) -> Seq<
    char,
> {
    if event.first_line(format) is Some {
        indented("+ "@, 4, true) + event.shown(format, packet, 4, false)
    } else {
        Seq::empty()
    }
}

/// The text of the first events of a series, with the options as they are
/// bound after them; `None` where one of the events cannot be shown.
///
/// Events are shown at level zero as long as nothing was shown, and as
/// continued events after that. Once there is text, a line break follows
/// each event.
pub open spec fn series_state(
    events: Seq<Event>,
    packets: Seq<Dissection>,
    format: DisplayFormat,
) -> Option<(Seq<char>, DisplayFormat)>
    decreases events.len(),
{
    if events.len() == 0 {
        Some((Seq::empty(), format))
    } else {
        match series_state(events.drop_last(), packets, format) {
            Some((content, format)) => {
                let event = events.last();
                let packet = packet_of(packets, events.len() - 1);
                let format = bound(format, &event);
                if event.can_show(&format) {
                    let content = content + if content.len() == 0 {
                        event.shown(&format, &packet, 0, true)
                    } else {
                        continued(&event, &format, &packet)
                    };
                    Some(
                        (
                            if content.len() > 0 {
                                content.push('\n')
                            } else {
                                content
                            },
                            format,
                        ),
                    )
                } else {
                    None
                }
            },
            None => None,
        }
    }
}

/// The text of a series: its events, then a blank line. A series that shows
/// nothing gives no text at all.
pub open spec fn series_text(content: Seq<char>) -> Seq<char> {
    if content.len() > 0 {
        content.push('\n')
    } else {
        content
    }
}

/// Handles event series formatting. What is written collects in the sink
/// until `flush` hands it over.
pub struct PrintSeries {
    out: String,
    format: PrintSingleFormat,
}

impl PrintSeries {
    /// What was written and not handed over yet.
    pub closed spec fn pending(&self) -> Seq<char> {
        self.out@
    }

    /// The format, with the clock offset that was bound last.
    pub closed spec fn format(&self) -> PrintSingleFormat {
        self.format
    }

    /// A sink with nothing written.
    pub fn new(format: PrintSingleFormat) -> (r: Self)
        ensures
            r.pending() == Seq::<char>::empty(),
            r.format() == format,
    {
        PrintSeries { out: String::new(), format }
    }

    /// What `process_one` adds for a series, and the format it leaves; `None`
    /// where an event of the series cannot be shown.
    pub open spec fn step(
        format: PrintSingleFormat,
        series: &EventSeries,
        packets: Seq<Dissection>,
    ) -> Option<(Seq<char>, PrintSingleFormat)> {
        match format {
            PrintSingleFormat::Text(options) => match series_state(
                series.events@,
                packets,
                options,
            ) {
                Some((content, options)) => Some(
                    (series_text(content), PrintSingleFormat::Text(options)),
                ),
                None => None,
            },
            PrintSingleFormat::Json => Some((series.json() + seq!['\n'], format)),
        }
    }

    /// An event after the first of its series.
    fn display_continued(event: &Event, format: &DisplayFormat, packet: &Dissection) -> (r: String)
        requires
            event.can_show(format),
        ensures
            r@ == continued(event, format, packet),
    {
        proof {
            lemma_find_has_id(event@, SectionId::Common);
        }
        if event.common().is_none() {
            return String::new();
        }
        let mut f = Formatter::new(FormatterConf::with_level(4));
        f.write_str("+ ");
        proof {
            reveal_strlit("+ ");
        }
        event.event_fmt(&mut f, format, packet);
        let s = f.finish();
        assert(s@ =~= continued(event, format, packet));
        s
    }

    /// Process series one by one (format & print). `packets` holds, for each
    /// event of the series, what the disassembler made of its raw packet. A
    /// series with an event that cannot be shown leaves the sink as it was.
    pub fn process_one(&mut self, series: &EventSeries, packets: &Vec<Dissection>) -> (r: Result<
        (),
        SinkError,
    >)
        ensures
            match Self::step(old(self).format(), series, packets@) {
                Some((text, format)) => r is Ok && final(self).pending() == old(self).pending()
                    + text && final(self).format() == format,
                None => r == Err::<(), SinkError>(SinkError::Time) && final(self).pending() == old(
                    self,
                ).pending() && final(self).format() == old(self).format(),
            },
    {
        match self.format {
            PrintSingleFormat::Text(options) => {
                let mut format = options;
                let mut content = String::new();
                let failed = Dissection::Failed;
                let n = series.events.len();
                let mut i: usize = 0;
                while i < n
                    invariant
                        i <= n,
                        n == series.events@.len(),
                        failed == Dissection::Failed,
                        series_state(series.events@.take(i as int), packets@, options) == Some(
                            (content@, format),
                        ),
                        *self == *old(self),
                        old(self).format() == PrintSingleFormat::Text(options),
                    decreases n - i,
                {
                    let event = &series.events[i];
                    let packet = if i < packets.len() {
                        &packets[i]
                    } else {
                        &failed
                    };
                    proof {
                        assert(series.events@.take(i + 1).drop_last() =~= series.events@.take(
                            i as int,
                        ));
                        assert(series.events@.take(i + 1).last() == *event);
                    }
                    bind(&mut format, event);
                    if !event.can_display(&format) {
                        proof {
                            assert(series_state(series.events@.take(i + 1), packets@, options)
                                is None);
                            lemma_series_fails(series.events@, packets@, options, i + 1);
                        }
                        return Err(SinkError::Time);
                    }
                    let text = if content.as_str().is_empty() {
                        event.display(&format, FormatterConf::new(), packet)
                    } else {
                        Self::display_continued(event, &format, packet)
                    };
                    content.append(text.as_str());
                    if !content.as_str().is_empty() {
                        content.push('\n');
                    }
                    i += 1;
                }
                proof {
                    assert(series.events@.take(n as int) =~= series.events@);
                }
                if !content.as_str().is_empty() {
                    content.push('\n');
                }
                self.format = PrintSingleFormat::Text(format);
                self.out.append(content.as_str());
            },
            PrintSingleFormat::Json => {
                let mut event = series.to_json();
                event.push('\n');
                self.out.append(event.as_str());
            },
        }
        Ok(())
    }

    /// Hands over what was written since the last call.
    pub fn flush(&mut self) -> (r: String)
        ensures
            r@ == old(self).pending(),
            final(self).pending() == Seq::<char>::empty(),
            final(self).format() == old(self).format(),
    {
        let mut out = String::new();
        core::mem::swap(&mut self.out, &mut out);
        out
    }
}

/// A series that cannot be shown up to an event cannot be shown as a whole.
proof fn lemma_series_fails(
    events: Seq<Event>,
    packets: Seq<Dissection>,
    format: DisplayFormat,
    n: int,
)
    requires
        0 <= n <= events.len(),
        series_state(events.take(n), packets, format) is None,
    ensures
        series_state(events, packets, format) is None,
    decreases events.len() - n,
{
    if n < events.len() {
        assert(events.take(n + 1).drop_last() =~= events.take(n));
        lemma_series_fails(events, packets, format, n + 1);
    } else {
        assert(events.take(n) =~= events);
    }
}

} // verus!
