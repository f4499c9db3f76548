//! The sections every event has: what produced it, and when and where.

use vstd::prelude::*;

use crate::display::{
    lemma_extends_emitted, lemma_extends_nothing, lemma_extends_twice, Dissection, DisplayFormat,
    EventFmt, Formatter, TimeFormat, indented,
};
use crate::text::{dec, signed_dec};
use crate::time::TimeSpec;

verus! {

/// Metadata of an event: what wrote it, and how its clock relates to the
/// wall clock.
#[derive(Debug, Clone, PartialEq, Eq)]
pub struct CommonEventMd {
    pub retis_version: String,
    /// CLOCK_MONOTONIC offset in regards to local machine time.
    pub clock_monotonic_offset: TimeSpec,
}

impl CommonEventMd {
    /// `Retis version <retis_version>`.
    pub open spec fn text(&self) -> Seq<char> {
        "Retis version "@ + self.retis_version@
    }

    /// Writes the section.
    pub fn write_to(&self, f: &mut Formatter)
        ensures
            final(f).extends(old(f), self.text()),
    {
        f.write_str("Retis version ");
        let ghost f1 = *f;
        f.write_str(self.retis_version.as_str());
        proof {
            lemma_extends_twice(*old(f), f1, *f, "Retis version "@, self.retis_version@);
        }
    }
}

impl EventFmt for CommonEventMd {
    /// Metadata can always be shown.
    open spec fn displayable(&self, format: &DisplayFormat) -> bool {
        true
    }

    open spec fn rendered(
        &self,
        format: &DisplayFormat,
        packet: &Dissection,
        level: nat,
        start: bool,
    ) -> Seq<char> {
        indented(self.text(), level, start)
    }

    fn can_display(&self, format: &DisplayFormat) -> (r: bool) {
        true
    }

    fn event_fmt(&self, f: &mut Formatter, format: &DisplayFormat, packet: &Dissection) {
        self.write_to(f);
        proof {
            lemma_extends_emitted(*old(f), *f, self.text());
        }
    }
}

/// The task that was running when an event was generated.
#[derive(Debug, Clone, PartialEq, Eq)]
pub struct TaskEvent {
    /// Process id.
    pub pid: i32,
    /// Thread group id.
    pub tgid: i32,
    /// Name of the current task.
    pub comm: String,
}

impl Default for TaskEvent {
    fn default() -> (r: Self)
        ensures
            r.pid == 0,
            r.tgid == 0,
            r.comm@ == Seq::<char>::empty(),
    {
        TaskEvent { pid: 0, tgid: 0, comm: String::new() }
    }
}

impl TaskEvent {
    /// ` [<comm>] <tgid>`, with `<pid>/` before the thread group id for a
    /// thread that is not the leader of its group.
    pub open spec fn text(&self) -> Seq<char> {
        " ["@ + self.comm@ + "] "@ + if self.tgid != self.pid {
            signed_dec(self.pid as int) + "/"@
        } else {
            Seq::empty()
        } + signed_dec(self.tgid as int)
    }

    /// Writes the task.
    pub fn write_to(&self, f: &mut Formatter)
        ensures
            final(f).extends(old(f), self.text()),
    {
        broadcast use lemma_extends_twice;

        f.write_str(" [");
        f.write_str(self.comm.as_str());
        f.write_str("] ");
        if self.tgid != self.pid {
            f.write_signed_dec(self.pid as i64);
            f.write_str("/");
        } else {
            proof {
                lemma_extends_nothing(*f);
            }
        }
        f.write_signed_dec(self.tgid as i64);
    }
}

/// Common event section.
#[derive(Debug, Clone, PartialEq, Eq)]
pub struct CommonEvent {
    /// Timestamp of when the event was generated.
    pub timestamp: u64,
    /// SMP processor id.
    pub smp_id: u32,
    pub task: Option<TaskEvent>,
}

impl CommonEvent {
    /// The timestamp as a value of the monotonic clock, where it fits one.
    pub open spec fn monotonic(&self) -> Option<TimeSpec> {
        if self.timestamp <= i64::MAX {
            Some(TimeSpec::monotonic_nanos(self.timestamp as int))
        } else {
            None
        }
    }

    /// The wall-clock date of the timestamp under the given offset of the
    /// monotonic clock. There is none where the timestamp or its sum with
    /// the offset leaves `i64`, or where the sum has no date.
    pub open spec fn wall_clock_text(&self, offset: TimeSpec) -> Option<Seq<char>> {
        match self.monotonic() {
            Some(monotonic) if monotonic.can_add(offset) => monotonic.plus(offset).utc_text(),
            _ => None,
        }
    }

    /// Whether the display asks for a wall-clock date: the time format is
    /// `UtcDate` and an offset is bound.
    pub open spec fn dated(format: &DisplayFormat) -> Option<TimeSpec> {
        match format.time_format {
            TimeFormat::UtcDate => format.monotonic_offset,
            TimeFormat::MonotonicTimestamp => None,
        }
    }

    /// The timestamp as shown: its wall-clock date where the display asks
    /// for one, its nanoseconds otherwise.
    pub open spec fn time_text(&self, format: &DisplayFormat) -> Seq<char> {
        match Self::dated(format) {
            Some(offset) => match self.wall_clock_text(offset) {
                Some(date) => date,
                None => Seq::empty(),
            },
            None => dec(self.timestamp as nat),
        }
    }

    /// The task, where there is one.
    pub open spec fn task_text(&self) -> Seq<char> {
        match self.task {
            Some(task) => task.text(),
            None => Seq::empty(),
        }
    }

    /// `<time> (<smp_id>)`, then the task.
    pub open spec fn text(&self, format: &DisplayFormat) -> Seq<char> {
        self.time_text(format) + (" ("@ + dec(self.smp_id as nat) + ")"@) + self.task_text()
    }

    /// The wall-clock date of the timestamp under the given offset.
    pub fn wall_clock(&self, offset: TimeSpec) -> (r: Option<String>)
        ensures
            match r {
                Some(date) => self.wall_clock_text(offset) == Some(date@),
                None => self.wall_clock_text(offset) is None,
            },
    {
        if self.timestamp > i64::MAX as u64 {
            return None;
        }
        let monotonic = TimeSpec::new(0, self.timestamp as i64);
        proof {
            TimeSpec::lemma_monotonic_nanos(monotonic, self.timestamp as int);
        }
        match monotonic.checked_add(offset) {
            Some(time) => time.utc_date(),
            None => None,
        }
    }

    /// Where the display asks for a wall-clock date, the timestamp has one.
    pub open spec fn has_time(&self, format: &DisplayFormat) -> bool {
        match Self::dated(format) {
            Some(offset) => self.wall_clock_text(offset) is Some,
            None => true,
        }
    }

    /// Tells whether the timestamp can be shown as the display asks.
    pub fn check_time(&self, format: &DisplayFormat) -> (r: bool)
        ensures
            r == self.has_time(format),
    {
        match format.time_format {
            TimeFormat::UtcDate => match format.monotonic_offset {
                Some(offset) => self.wall_clock(offset).is_some(),
                None => true,
            },
            TimeFormat::MonotonicTimestamp => true,
        }
    }

    /// Writes the section.
    pub fn write_to(&self, f: &mut Formatter, format: &DisplayFormat)
        requires
            self.has_time(format),
        ensures
            final(f).extends(old(f), self.text(format)),
    {
        broadcast use lemma_extends_twice;

        self.write_time(f, format);
        f.write_labeled_dec(" (", self.smp_id as u64, ")");
        if let Some(current) = &self.task {
            current.write_to(f);
        } else {
            proof {
                lemma_extends_nothing(*f);
            }
        }
    }

    /// Writes the timestamp.
    fn write_time(&self, f: &mut Formatter, format: &DisplayFormat)
        requires
            self.has_time(format),
        ensures
            final(f).extends(old(f), self.time_text(format)),
    {
        let offset = match format.time_format {
            TimeFormat::UtcDate => format.monotonic_offset,
            TimeFormat::MonotonicTimestamp => None,
        };
        match offset {
            Some(offset) => {
                if let Some(date) = self.wall_clock(offset) {
                    f.write_str(date.as_str());
                }
            },
            None => {
                f.write_dec(self.timestamp);
            },
        }
    }
}

impl EventFmt for CommonEvent {
    /// Where the display asks for a wall-clock date, the timestamp has one.
    open spec fn displayable(&self, format: &DisplayFormat) -> bool {
        self.has_time(format)
    }

    open spec fn rendered(
        &self,
        format: &DisplayFormat,
        packet: &Dissection,
        level: nat,
        start: bool,
    ) -> Seq<char> {
        indented(self.text(format), level, start)
    }

    fn can_display(&self, format: &DisplayFormat) -> (r: bool) {
        self.check_time(format)
    }

    fn event_fmt(&self, f: &mut Formatter, format: &DisplayFormat, packet: &Dissection) {
        self.write_to(f, format);
        proof {
            lemma_extends_emitted(*old(f), *f, self.text(format));
        }
    }
}

} // verus!
