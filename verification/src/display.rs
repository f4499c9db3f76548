//! How events are displayed: display options, the indenting [`Formatter`],
//! and the traits every displayable part of an event implements.

use vstd::prelude::*;

use crate::text::{push_dec, push_hex, push_signed_dec, push_str, string_of};
use crate::time::TimeSpec;

verus! {

/// Whether an event is laid out on one line or on several.
#[derive(Debug, Clone, Copy, PartialEq, Eq, Structural)]
pub enum DisplayFormatFlavor {
    SingleLine,
    MultiLine,
}

impl Default for DisplayFormatFlavor {
    fn default() -> (r: Self)
        ensures
            r == DisplayFormatFlavor::MultiLine,
    {
        DisplayFormatFlavor::MultiLine
    }
}

/// How the timestamp of an event is shown.
#[derive(Debug, Clone, Copy, PartialEq, Eq, Structural)]
pub enum TimeFormat {
    /// Nanoseconds of the monotonic clock.
    MonotonicTimestamp,
    /// Wall-clock date; needs [`DisplayFormat::monotonic_offset`].
    UtcDate,
}

impl Default for TimeFormat {
    fn default() -> (r: Self)
        ensures
            r == TimeFormat::MonotonicTimestamp,
    {
        TimeFormat::MonotonicTimestamp
    }
}

/// Display options.
#[derive(Debug, Clone, Copy)]
pub struct DisplayFormat {
    pub flavor: DisplayFormatFlavor,
    pub time_format: TimeFormat,
    /// Show the fields that come from the event's metadata section.
    pub show_metadata: bool,
    /// Offset of the monotonic clock to the wall clock, bound for each event
    /// before it is rendered.
    pub monotonic_offset: Option<TimeSpec>,
    /// Show link-layer information.
    pub print_ll: bool,
    /// Put a line break between the heavy parts of a section; follows from
    /// `flavor`.
    pub multiline: bool,
}

impl DisplayFormat {
    /// The options `new` gives for a flavor.
    pub open spec fn spec_new(flavor: DisplayFormatFlavor) -> DisplayFormat {
        DisplayFormat {
            flavor,
            time_format: TimeFormat::MonotonicTimestamp,
            show_metadata: false,
            monotonic_offset: None,
            print_ll: false,
            multiline: flavor == DisplayFormatFlavor::MultiLine,
        }
    }

    /// Options for the given flavor, everything else off.
    pub fn new(flavor: DisplayFormatFlavor) -> (r: Self)
        ensures
            r == Self::spec_new(flavor),
    {
        let multiline = match flavor {
            DisplayFormatFlavor::SingleLine => false,
            DisplayFormatFlavor::MultiLine => true,
        };
        DisplayFormat {
            flavor,
            time_format: TimeFormat::MonotonicTimestamp,
            show_metadata: false,
            monotonic_offset: None,
            print_ll: false,
            multiline,
        }
    }

    /// Turns the display of metadata on.
    pub fn show_metadata(&mut self)
        ensures
            *final(self) == (DisplayFormat { show_metadata: true, ..*old(self) }),
    {
        self.show_metadata = true
    }

    /// Chooses how timestamps are shown.
    pub fn set_time_format(&mut self, format: TimeFormat)
        ensures
            *final(self) == (DisplayFormat { time_format: format, ..*old(self) }),
    {
        self.time_format = format;
    }

    /// Binds the offset of the monotonic clock to the wall clock.
    pub fn set_monotonic_offset(&mut self, offset: TimeSpec)
        ensures
            *final(self) == (DisplayFormat { monotonic_offset: Some(offset), ..*old(self) }),
    {
        self.monotonic_offset = Some(offset);
    }
}

impl Default for DisplayFormat {
    fn default() -> (r: Self)
        ensures
            r == DisplayFormat::spec_new(DisplayFormatFlavor::MultiLine),
    {
        DisplayFormat::new(DisplayFormatFlavor::MultiLine)
    }
}

/// `level` spaces.
pub open spec fn indent(level: nat) -> Seq<char> {
    Seq::new(level, |i: int| ' ')
}

/// Whether the next character begins a line, after `s` was written from a
/// position where `start` told the same.
pub open spec fn ends_line(s: Seq<char>, start: bool) -> bool {
    if s.len() == 0 {
        start
    } else {
        s.last() == '\n'
    }
}

/// What reaches the output when `s` is written at indentation `level`: every
/// character that begins a line, a line break too, is preceded by `level`
/// spaces. `start` tells whether the first character of `s` begins a line.
pub open spec fn indented(s: Seq<char>, level: nat, start: bool) -> Seq<char>
    decreases s.len(),
{
    if s.len() == 0 {
        Seq::empty()
    } else {
        let init = s.drop_last();
        indented(init, level, start) + if ends_line(init, start) {
            indent(level).push(s.last())
        } else {
            seq![s.last()]
        }
    }
}

/// Writing `a` and then `b` at one level is writing `a + b`.
pub proof fn lemma_indented_concat(a: Seq<char>, b: Seq<char>, level: nat, start: bool)
    ensures
        indented(a + b, level, start) == indented(a, level, start) + indented(
            b,
            level,
            ends_line(a, start),
        ),
        ends_line(a + b, start) == ends_line(b, ends_line(a, start)),
    decreases b.len(),
{
    if b.len() == 0 {
        assert(a + b =~= a);
    } else {
        let init = b.drop_last();
        assert((a + b).drop_last() =~= a + init);
        assert((a + b).last() == b.last());
        lemma_indented_concat(a, init, level, start);
    }
}

/// Indentation adds text only in front of characters: the output is empty
/// with the input, and ends in a line break with it.
pub proof fn lemma_indented_ends_line(s: Seq<char>, level: nat, start: bool)
    ensures
        ends_line(indented(s, level, start), start) == ends_line(s, start),
        s.len() == 0 <==> indented(s, level, start).len() == 0,
    decreases s.len(),
{
    if s.len() > 0 {
        lemma_indented_ends_line(s.drop_last(), level, start);
    }
}

/// An indentation level and the levels saved below it.
pub ghost struct LevelStack {
    pub level: nat,
    pub saved: Seq<nat>,
}

impl LevelStack {
    /// Saves the level and raises it by `diff`.
    pub open spec fn inc(self, diff: nat) -> LevelStack {
        LevelStack { level: self.level + diff, saved: self.saved.push(self.level) }
    }

    /// Goes back to the level saved last; nothing changes when none is saved.
    pub open spec fn reset(self) -> LevelStack {
        if self.saved.len() > 0 {
            LevelStack { level: self.saved.last(), saved: self.saved.drop_last() }
        } else {
            self
        }
    }
}

/// Raising the level and resetting it gives back the level and the saved
/// levels as they were.
pub proof fn lemma_inc_then_reset(s: LevelStack, diff: nat)
    ensures
        s.inc(diff).reset() == s,
{
    assert(s.inc(diff).saved.drop_last() =~= s.saved);
}

/// The indentation a [`Formatter`] works with.
pub struct FormatterConf {
    level: usize,
    saved_levels: Vec<usize>,
}

impl View for FormatterConf {
    type V = LevelStack;

    closed spec fn view(&self) -> LevelStack {
        LevelStack {
            level: self.level as nat,
            saved: Seq::new(self.saved_levels@.len(), |i: int| self.saved_levels@[i] as nat),
        }
    }
}

impl Clone for FormatterConf {
    fn clone(&self) -> (r: Self)
        ensures
            r@ == self@,
    {
        let mut saved_levels: Vec<usize> = Vec::new();
        let mut i: usize = 0;
        while i < self.saved_levels.len()
            invariant
                i <= self.saved_levels.len(),
                saved_levels@ == self.saved_levels@.take(i as int),
            decreases self.saved_levels.len() - i,
        {
            saved_levels.push(self.saved_levels[i]);
            i += 1;
        }
        assert(saved_levels@ =~= self.saved_levels@);
        FormatterConf { level: self.level, saved_levels }
    }
}

impl Default for FormatterConf {
    fn default() -> (r: Self)
        ensures
            r@ == (LevelStack { level: 0, saved: Seq::empty() }),
    {
        FormatterConf::new()
    }
}

impl FormatterConf {
    /// Level zero, nothing saved.
    pub fn new() -> (r: Self)
        ensures
            r@ == (LevelStack { level: 0, saved: Seq::empty() }),
    {
        Self::with_level(0)
    }

    /// The given level, nothing saved.
    pub fn with_level(level: usize) -> (r: Self)
        ensures
            r@ == (LevelStack { level: level as nat, saved: Seq::empty() }),
    {
        let r = FormatterConf { level, saved_levels: Vec::new() };
        assert(r@.saved =~= Seq::empty());
        r
    }

    /// The current level.
    pub fn level(&self) -> (r: usize)
        ensures
            r == self@.level,
    {
        self.level
    }

    /// Increase the indentation level by `diff`.
    pub fn inc_level(&mut self, diff: usize)
        requires
            old(self)@.level + diff <= usize::MAX,
        ensures
            final(self)@ == old(self)@.inc(diff as nat),
    {
        self.saved_levels.push(self.level);
        self.level += diff;
        assert(self@.saved =~= old(self)@.saved.push(old(self)@.level));
    }

    /// Reset the indentation level to its previous value. Without a saved
    /// level nothing changes.
    pub fn reset_level(&mut self)
        ensures
            final(self)@ == old(self)@.reset(),
    {
        match self.saved_levels.pop() {
            Some(level) => {
                self.level = level;
                assert(self@.saved =~= old(self)@.saved.drop_last());
            },
            None => {
                assert(self@.saved =~= old(self)@.saved);
            },
        }
    }
}

/// Appends `level` spaces to `out`.
fn push_indent(out: &mut Vec<char>, level: usize)
    ensures
        final(out)@ == old(out)@ + indent(level as nat),
{
    let mut i: usize = 0;
    while i < level
        invariant
            i <= level,
            out@ == old(out)@ + indent(i as nat),
        decreases level - i,
    {
        out.push(' ');
        i += 1;
        assert(indent(i as nat) =~= indent((i - 1) as nat).push(' '));
    }
    assert(out@ =~= old(out)@ + indent(level as nat)) by {
        if level == 0 {
            assert(indent(0) =~= Seq::<char>::empty());
        }
    }
}

/// A writer that indents what it is given and controls how events are
/// displayed. Text is collected in a buffer; when the buffer is flushed,
/// every line in it is prefixed with the indentation that was current when
/// the text was written.
///
/// The indentation is context-based: `conf` can change between two writes.
pub struct Formatter {
    out: Vec<char>,
    pub conf: FormatterConf,
    level: usize,
    start: bool,
    buf: Vec<char>,
}

impl Formatter {
    /// Everything written so far, indented: what [`Formatter::finish`] would
    /// return now.
    pub closed spec fn text(&self) -> Seq<char> {
        self.out@ + indented(self.buf@, self.level as nat, self.start)
    }

    /// What has reached the output: the text that was flushed.
    pub closed spec fn flushed(&self) -> Seq<char> {
        self.out@
    }

    /// What waits in the buffer.
    pub closed spec fn pending(&self) -> Seq<char> {
        self.buf@
    }

    /// Whether the next character written begins a line.
    pub closed spec fn at_line_start(&self) -> bool {
        ends_line(self.buf@, self.start)
    }

    /// The indentation level and the saved levels of `conf`.
    pub closed spec fn levels(&self) -> LevelStack {
        self.conf@
    }

    /// `self` is `before` after `s` was written at the level of `before`.
    pub open spec fn extends(&self, before: &Formatter, s: Seq<char>) -> bool {
        &&& self.text() == before.text() + indented(
            s,
            before.levels().level,
            before.at_line_start(),
        )
        &&& self.at_line_start() == ends_line(s, before.at_line_start())
        &&& self.levels() == before.levels()
    }

    /// `self` is `before` after the indented text `out` reached it, with the
    /// levels back where they were.
    pub open spec fn emitted(&self, before: &Formatter, out: Seq<char>) -> bool {
        &&& self.text() == before.text() + out
        &&& self.at_line_start() == ends_line(out, before.at_line_start())
        &&& self.levels() == before.levels()
    }

    /// A formatter that has written nothing and stands at the beginning of a
    /// line.
    pub fn new(conf: FormatterConf) -> (r: Formatter)
        ensures
            r.text() == Seq::<char>::empty(),
            r.flushed() == Seq::<char>::empty(),
            r.pending() == Seq::<char>::empty(),
            r.at_line_start(),
            r.levels() == conf@,
    {
        let level = conf.level;
        Formatter { out: Vec::new(), conf, level, start: true, buf: Vec::new() }
    }

    /// Makes room for text at the current level of `conf`: a buffer filled at
    /// another level is flushed first.
    fn sync_level(&mut self)
        ensures
            final(self).text() == old(self).text(),
            final(self).at_line_start() == old(self).at_line_start(),
            final(self).conf == old(self).conf,
            final(self).level == final(self).conf@.level,
    {
        if self.conf.level != self.level {
            if self.buf.len() > 0 {
                self.flush_pending();
            }
            self.level = self.conf.level;
        }
    }

    /// Appending `piece` to a buffer that is filled at the current level
    /// writes `piece`.
    proof fn lemma_appended(mid: Formatter, after: Formatter, piece: Seq<char>)
        requires
            after.out == mid.out,
            after.level == mid.level,
            after.start == mid.start,
            after.conf == mid.conf,
            after.buf@ == mid.buf@ + piece,
            mid.level == mid.conf@.level,
        ensures
            after.extends(&mid, piece),
    {
        lemma_indented_concat(mid.buf@, piece, mid.level as nat, mid.start);
        assert(after.text() =~= mid.text() + indented(
            piece,
            mid.level as nat,
            mid.at_line_start(),
        ));
    }

    /// Writes `s` at the current level of `conf`.
    pub fn write_str(&mut self, s: &str)
        ensures
            final(self).extends(old(self), s@),
    {
        self.sync_level();
        let ghost mid = *self;
        push_str(&mut self.buf, s);
        proof {
            Self::lemma_appended(mid, *self, s@);
        }
    }

    /// Writes formatted text at the current level of `conf`.
    #[inline]
    pub fn write_fmt(&mut self, args: &str)
        ensures
            final(self).extends(old(self), args@),
    {
        self.write_str(args)
    }

    /// Writes one character at the current level of `conf`.
    pub fn write_char(&mut self, c: char)
        ensures
            final(self).extends(old(self), seq![c]),
    {
        self.sync_level();
        let ghost mid = *self;
        self.buf.push(c);
        proof {
            assert(self.buf@ =~= mid.buf@ + seq![c]);
            Self::lemma_appended(mid, *self, seq![c]);
        }
    }

    /// Writes `n` in decimal at the current level of `conf`.
    pub fn write_dec(&mut self, n: u64)
        ensures
            final(self).extends(old(self), crate::text::dec(n as nat)),
    {
        self.sync_level();
        let ghost mid = *self;
        push_dec(&mut self.buf, n);
        proof {
            Self::lemma_appended(mid, *self, crate::text::dec(n as nat));
        }
    }

    /// Writes `n` in decimal, with its sign when negative, at the current
    /// level of `conf`.
    pub fn write_signed_dec(&mut self, n: i64)
        ensures
            final(self).extends(old(self), crate::text::signed_dec(n as int)),
    {
        self.sync_level();
        let ghost mid = *self;
        push_signed_dec(&mut self.buf, n);
        proof {
            Self::lemma_appended(mid, *self, crate::text::signed_dec(n as int));
        }
    }

    /// Writes `n` in hexadecimal behind `0x` at the current level of `conf`.
    pub fn write_hex(&mut self, n: u64)
        ensures
            final(self).extends(old(self), crate::text::hex(n as nat)),
    {
        self.sync_level();
        let ghost mid = *self;
        push_hex(&mut self.buf, n);
        proof {
            Self::lemma_appended(mid, *self, crate::text::hex(n as nat));
        }
    }

    /// Writes `label`, `n` in decimal and `tail`.
    pub fn write_labeled_dec(&mut self, label: &str, n: u64, tail: &str)
        ensures
            final(self).extends(old(self), label@ + crate::text::dec(n as nat) + tail@),
    {
        self.write_str(label);
        let ghost f1 = *self;
        self.write_dec(n);
        let ghost f2 = *self;
        self.write_str(tail);
        proof {
            lemma_extends_twice(*old(self), f1, f2, label@, crate::text::dec(n as nat));
            lemma_extends_twice(
                *old(self),
                f2,
                *self,
                label@ + crate::text::dec(n as nat),
                tail@,
            );
        }
    }

    /// Writes `label`, `n` in hexadecimal behind `0x`, and `tail`.
    pub fn write_labeled_hex(&mut self, label: &str, n: u64, tail: &str)
        ensures
            final(self).extends(old(self), label@ + crate::text::hex(n as nat) + tail@),
    {
        self.write_str(label);
        let ghost f1 = *self;
        self.write_hex(n);
        let ghost f2 = *self;
        self.write_str(tail);
        proof {
            lemma_extends_twice(*old(self), f1, f2, label@, crate::text::hex(n as nat));
            lemma_extends_twice(
                *old(self),
                f2,
                *self,
                label@ + crate::text::hex(n as nat),
                tail@,
            );
        }
    }

    /// Moves the buffer to the output, every line prefixed with the
    /// indentation the buffer was filled at.
    pub fn flush_buf(&mut self)
        ensures
            final(self).flushed() == old(self).text(),
            final(self).pending() == Seq::<char>::empty(),
            final(self).text() == old(self).text(),
            final(self).at_line_start() == old(self).at_line_start(),
            final(self).levels() == old(self).levels(),
    {
        self.flush_pending();
    }

    fn flush_pending(&mut self)
        ensures
            final(self).flushed() == old(self).text(),
            final(self).pending() == Seq::<char>::empty(),
            final(self).text() == old(self).text(),
            final(self).at_line_start() == old(self).at_line_start(),
            final(self).conf == old(self).conf,
            final(self).level == old(self).level,
    {
        let n = self.buf.len();
        let mut i: usize = 0;
        while i < n
            invariant
                i <= n,
                n == self.buf@.len(),
                self.buf == old(self).buf,
                self.level == old(self).level,
                self.conf == old(self).conf,
                self.out@ == old(self).out@ + indented(
                    self.buf@.take(i as int),
                    self.level as nat,
                    old(self).start,
                ),
                self.start == ends_line(self.buf@.take(i as int), old(self).start),
            decreases n - i,
        {
            let c = self.buf[i];
            proof {
                let next = self.buf@.take(i + 1);
                assert(next.drop_last() =~= self.buf@.take(i as int));
                assert(next.last() == c);
            }
            if self.start {
                push_indent(&mut self.out, self.level);
            }
            self.out.push(c);
            self.start = c == '\n';
            i += 1;
        }
        assert(self.buf@.take(n as int) =~= self.buf@);
        self.buf.clear();
    }

    /// Increase the indentation level by `diff`; what was written keeps its
    /// indentation.
    pub fn inc_level(&mut self, diff: usize)
        requires
            old(self).levels().level + diff <= usize::MAX,
        ensures
            final(self).levels() == old(self).levels().inc(diff as nat),
            final(self).text() == old(self).text(),
            final(self).at_line_start() == old(self).at_line_start(),
    {
        self.conf.inc_level(diff);
    }

    /// Reset the indentation level to its previous value; what was written
    /// keeps its indentation.
    pub fn reset_level(&mut self)
        ensures
            final(self).levels() == old(self).levels().reset(),
            final(self).text() == old(self).text(),
            final(self).at_line_start() == old(self).at_line_start(),
    {
        self.conf.reset_level();
    }

    /// Flushes what is left and hands the output over.
    pub fn finish(self) -> (s: String)
        ensures
            s@ == self.text(),
    {
        let mut f = self;
        f.flush_buf();
        string_of(&f.out)
    }
}

/// Two writes in a row are one write of both texts.
pub broadcast proof fn lemma_extends_twice(
    f0: Formatter,
    f1: Formatter,
    f2: Formatter,
    a: Seq<char>,
    b: Seq<char>,
)
    requires
        #[trigger] f1.extends(&f0, a),
        #[trigger] f2.extends(&f1, b),
    ensures
        f2.extends(&f0, a + b),
{
    lemma_indented_concat(a, b, f0.levels().level, f0.at_line_start());
    assert(f2.text() =~= f0.text() + indented(a + b, f0.levels().level, f0.at_line_start()));
}

/// A formatter extends itself by the empty text.
pub proof fn lemma_extends_nothing(f: Formatter)
    ensures
        f.extends(&f, Seq::empty()),
{
    assert(f.text() =~= f.text() + indented(
        Seq::empty(),
        f.levels().level,
        f.at_line_start(),
    ));
}

/// What a write adds to the output is its text, indented.
pub proof fn lemma_extends_emitted(f0: Formatter, f1: Formatter, s: Seq<char>)
    requires
        f1.extends(&f0, s),
    ensures
        f1.emitted(&f0, indented(s, f0.levels().level, f0.at_line_start())),
{
    lemma_indented_ends_line(s, f0.levels().level, f0.at_line_start());
}

/// What the packet disassembler made of the raw packet of an event.
#[derive(Debug, Clone, PartialEq, Eq)]
pub enum Dissection {
    /// The line it printed, without the line break at its end.
    Text(String),
    /// Its pipe was closed, as happens when the program shuts down.
    BrokenPipe,
    /// It could not be run, or reading its answer failed.
    Failed,
}

/// Controls how an event, a section of one, or any type inside it, is
/// formatted.
pub trait EventFmt {
    /// Whether `self` can be shown under `format`. What cannot be shown is
    /// out of order: a timestamp for which there is no date.
    spec fn displayable(&self, format: &DisplayFormat) -> bool;

    /// What formatting `self` adds to the output of a formatter that stands
    /// at indentation `level`, with `start` telling whether a line begins.
    spec fn rendered(
        &self,
        format: &DisplayFormat,
        packet: &Dissection,
        level: nat,
        start: bool,
    ) -> Seq<char>;

    /// Tells whether `self` can be shown under `format`.
    fn can_display(&self, format: &DisplayFormat) -> (r: bool)
        ensures
            r == self.displayable(format),
    ;

    /// Default formatting of an event. `packet` is what the disassembler
    /// returned for the raw packet of the event; it is looked at only where
    /// there is a raw packet to show.
    fn event_fmt(&self, f: &mut Formatter, format: &DisplayFormat, packet: &Dissection)
        requires
            self.displayable(format),
            old(f).levels().level + 2 <= usize::MAX,
        ensures
            final(f).emitted(
                old(f),
                self.rendered(format, packet, old(f).levels().level, old(f).at_line_start()),
            ),
    ;
}

/// Gives the displayed form of anything that can be formatted.
pub trait EventDisplay: EventFmt {
    /// Display the event using the default event format, starting at the
    /// indentation of `conf`.
    fn display(&self, format: &DisplayFormat, conf: FormatterConf, packet: &Dissection) -> (s:
        String)
        requires
            self.displayable(format),
            conf@.level + 2 <= usize::MAX,
        ensures
            s@ == self.rendered(format, packet, conf@.level, true),
    ;

    /// Display the event where it can be shown and the indentation of `conf`
    /// leaves room for one more step.
    fn try_display(&self, format: &DisplayFormat, conf: FormatterConf, packet: &Dissection) -> (r:
        Option<String>)
        ensures
            r is Some <==> self.displayable(format) && conf@.level + 2 <= usize::MAX,
            r matches Some(s) ==> s@ == self.rendered(format, packet, conf@.level, true),
    ;
}

impl<T: EventFmt> EventDisplay for T {
    fn display(&self, format: &DisplayFormat, conf: FormatterConf, packet: &Dissection) -> (s:
        String) {
        let mut f = Formatter::new(conf);
        self.event_fmt(&mut f, format, packet);
        let s = f.finish();
        assert(s@ =~= self.rendered(format, packet, conf@.level, true));
        s
    }

    fn try_display(&self, format: &DisplayFormat, conf: FormatterConf, packet: &Dissection) -> (r:
        Option<String>) {
        if conf.level() <= usize::MAX - 2 && self.can_display(format) {
            Some(self.display(format, conf, packet))
        } else {
            None
        }
    }
}

/// A helper that writes a delimiter, such as `,` or a space, on every call of
/// `write` but the first. This helps to write lists of optional fields.
pub struct DelimWriter {
    delim: char,
    first: bool,
}

impl DelimWriter {
    /// The delimiter.
    pub closed spec fn delim(&self) -> char {
        self.delim
    }

    /// Whether `write` was called since the writer was made or reset.
    #[verifier::when_used_as_spec(spec_used)]
    pub fn used(&self) -> (r: bool)
        ensures
            r == self.spec_used(),
    {
        !self.first
    }

    /// Whether `write` was called since the writer was made or reset.
    pub closed spec fn spec_used(&self) -> bool {
        !self.first
    }

    /// What `write` emits: nothing the first time, the delimiter after that.
    pub open spec fn emits(&self) -> Seq<char> {
        if self.used() {
            seq![self.delim()]
        } else {
            Seq::empty()
        }
    }

    /// Create a new DelimWriter
    pub fn new(delim: char) -> (r: DelimWriter)
        ensures
            r.delim() == delim,
            !r.used(),
    {
        DelimWriter { delim, first: true }
    }

    /// If it's not the first time it's called, write the delimiter.
    pub fn write(&mut self, f: &mut Formatter)
        ensures
            final(f).extends(old(f), old(self).emits()),
            final(self).used(),
            final(self).delim() == old(self).delim(),
    {
        match self.first {
            true => {
                self.first = false;
            },
            false => {
                f.write_char(self.delim);
            },
        }
    }

    /// Makes the next `write` emit nothing again.
    pub fn reset(&mut self)
        ensures
            !final(self).used(),
            final(self).delim() == old(self).delim(),
    {
        self.first = true;
    }
}

} // verus!
