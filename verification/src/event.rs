//! Events: sections under their ids, each id bound at most once.

use vstd::prelude::*;

use crate::common::{CommonEvent, CommonEventMd};
use crate::display::{
    ends_line, indented, lemma_extends_nothing, lemma_extends_twice, lemma_inc_then_reset,
    lemma_indented_ends_line, Dissection, DisplayFormat, EventFmt, Formatter,
};
use crate::skb::SkbEvent;

verus! {

/// The kinds of section an event can hold.
#[derive(Debug, Clone, Copy, PartialEq, Eq, Hash, Structural)]
pub enum SectionId {
    MdCommon,
    Common,
    Skb,
    SkbTracking,
    Kernel,
    UserStack,
    Ct,
}

impl SectionId {
    /// The short name a section is stored under.
    pub open spec fn name(self) -> Seq<char> {
        match self {
            SectionId::MdCommon => "md_common"@,
            SectionId::Common => "common"@,
            SectionId::Skb => "skb"@,
            SectionId::SkbTracking => "skb_tracking"@,
            SectionId::Kernel => "kernel"@,
            SectionId::UserStack => "user_stack"@,
            SectionId::Ct => "ct"@,
        }
    }

    /// The short name a section is stored under.
    pub fn to_str(&self) -> (r: &'static str)
        ensures
            r@ == self.name(),
    {
        match self {
            SectionId::MdCommon => "md_common",
            SectionId::Common => "common",
            SectionId::Skb => "skb",
            SectionId::SkbTracking => "skb_tracking",
            SectionId::Kernel => "kernel",
            SectionId::UserStack => "user_stack",
            SectionId::Ct => "ct",
        }
    }
}

/// A section of an event, one case for each kind that carries data here.
#[derive(Debug, Clone, PartialEq, Eq)]
pub enum Section {
    MdCommon(CommonEventMd),
    Common(CommonEvent),
    Skb(SkbEvent),
}

impl Section {
    /// The id under which this section is bound.
    pub open spec fn spec_id(&self) -> SectionId {
        match self {
            Section::MdCommon(_) => SectionId::MdCommon,
            Section::Common(_) => SectionId::Common,
            Section::Skb(_) => SectionId::Skb,
        }
    }

    /// The id under which this section is bound.
    #[verifier::when_used_as_spec(spec_id)]
    pub fn id(&self) -> (r: SectionId)
        ensures
            r == self.spec_id(),
    {
        match self {
            Section::MdCommon(_) => SectionId::MdCommon,
            Section::Common(_) => SectionId::Common,
            Section::Skb(_) => SectionId::Skb,
        }
    }

    /// The text of the section.
    pub open spec fn text(&self, format: &DisplayFormat, packet: &Dissection) -> Seq<char> {
        match self {
            Section::MdCommon(md) => md.text(),
            Section::Common(common) => common.text(format),
            Section::Skb(skb) => skb.text(format, packet),
        }
    }

    /// Whether the section can be shown.
    pub open spec fn displayable(&self, format: &DisplayFormat) -> bool {
        match self {
            Section::Common(common) => common.has_time(format),
            _ => true,
        }
    }

    /// Writes the section.
    pub fn write_to(&self, f: &mut Formatter, format: &DisplayFormat, packet: &Dissection)
        requires
            self.displayable(format),
        ensures
            final(f).extends(old(f), self.text(format, packet)),
    {
        match self {
            Section::MdCommon(md) => md.write_to(f),
            Section::Common(common) => common.write_to(f, format),
            Section::Skb(skb) => skb.write_to(f, format, packet),
        }
    }
}

/// Why a section was not taken into an event.
#[derive(Debug, Clone, Copy, PartialEq, Eq, Structural)]
pub enum EventError {
    /// The event already holds a section under this id.
    AlreadyBound(SectionId),
}

/// The first section of `sections` that is bound under `id`.
pub open spec fn find(sections: Seq<Section>, id: SectionId) -> Option<Section>
    decreases sections.len(),
{
    if sections.len() == 0 {
        None
    } else if sections[0].id() == id {
        Some(sections[0])
    } else {
        find(sections.drop_first(), id)
    }
}

/// No two sections of `sections` are bound under one id.
pub open spec fn distinct_ids(sections: Seq<Section>) -> bool {
    forall|i: int, j: int|
        0 <= i < j < sections.len() ==> (#[trigger] sections[i]).id() != (
        #[trigger] sections[j]).id()
}

/// `find` looks at the sections in order: it finds what a look through the
/// first `n` of them finds, or else the first match after them.
proof fn lemma_find_skip(sections: Seq<Section>, id: SectionId, n: int)
    requires
        0 <= n <= sections.len(),
        forall|k: int| 0 <= k < n ==> (#[trigger] sections[k]).id() != id,
    ensures
        find(sections, id) == find(sections.skip(n), id),
    decreases n,
{
    if n > 0 {
        lemma_find_skip(sections.drop_first(), id, n - 1);
        assert(sections.drop_first().skip(n - 1) =~= sections.skip(n));
    } else {
        assert(sections.skip(0) =~= sections);
    }
}

/// An event: an ordered collection of sections, at most one of each kind.
#[derive(Debug)]
pub struct Event {
    sections: Vec<Section>,
}

impl View for Event {
    type V = Seq<Section>;

    /// The sections in the order they were inserted.
    closed spec fn view(&self) -> Seq<Section> {
        self.sections@
    }
}

impl Event {
    #[verifier::type_invariant]
    spec fn unique_ids(&self) -> bool {
        distinct_ids(self.sections@)
    }

    /// The section bound under `id`, if any.
    pub open spec fn section(&self, id: SectionId) -> Option<Section> {
        find(self@, id)
    }

    /// An event holds what every event must hold: metadata and the common
    /// section.
    pub open spec fn is_complete(&self) -> bool {
        self.section(SectionId::MdCommon) is Some && self.section(SectionId::Common) is Some
    }

    /// Tells whether the event holds what every event must hold.
    pub fn check_complete(&self) -> (r: bool)
        ensures
            r == self.is_complete(),
    {
        self.get_section(SectionId::MdCommon).is_some() && self.get_section(
            SectionId::Common,
        ).is_some()
    }

    /// An event without sections.
    pub fn new() -> (r: Event)
        ensures
            r@ == Seq::<Section>::empty(),
    {
        Event { sections: Vec::new() }
    }

    /// The number of sections. No two of them are bound under one id.
    pub fn len(&self) -> (r: usize)
        ensures
            r == self@.len(),
            distinct_ids(self@),
    {
        proof {
            use_type_invariant(self);
        }
        self.sections.len()
    }

    /// The section at position `i` in the order of insertion.
    pub fn section_at(&self, i: usize) -> (r: &Section)
        requires
            i < self@.len(),
        ensures
            *r == self@[i as int],
    {
        &self.sections[i]
    }

    /// The section bound under `id`, if any.
    pub fn get_section(&self, id: SectionId) -> (r: Option<&Section>)
        ensures
            match r {
                Some(section) => self.section(id) == Some(*section),
                None => self.section(id) is None,
            },
    {
        let mut i: usize = 0;
        while i < self.sections.len()
            invariant
                i <= self.sections.len(),
                forall|k: int| 0 <= k < i ==> (#[trigger] self.sections@[k]).id() != id,
            decreases self.sections.len() - i,
        {
            if self.sections[i].id() == id {
                proof {
                    lemma_find_skip(self.sections@, id, i as int);
                }
                return Some(&self.sections[i]);
            }
            i += 1;
        }
        proof {
            lemma_find_skip(self.sections@, id, self.sections@.len() as int);
        }
        None
    }

    /// The metadata of the event, if it holds any.
    pub fn md_common(&self) -> (r: Option<&CommonEventMd>)
        ensures
            match r {
                Some(md) => self.section(SectionId::MdCommon) == Some(Section::MdCommon(*md)),
                None => self.section(SectionId::MdCommon) is None,
            },
    {
        proof {
            lemma_find_has_id(self@, SectionId::MdCommon);
        }
        match self.get_section(SectionId::MdCommon) {
            Some(Section::MdCommon(md)) => Some(md),
            _ => None,
        }
    }

    /// The common section of the event, if it holds one.
    pub fn common(&self) -> (r: Option<&CommonEvent>)
        ensures
            match r {
                Some(common) => self.section(SectionId::Common) == Some(Section::Common(*common)),
                None => self.section(SectionId::Common) is None,
            },
    {
        proof {
            lemma_find_has_id(self@, SectionId::Common);
        }
        match self.get_section(SectionId::Common) {
            Some(Section::Common(common)) => Some(common),
            _ => None,
        }
    }

    /// The packet buffer section of the event, if it holds one.
    pub fn skb(&self) -> (r: Option<&SkbEvent>)
        ensures
            match r {
                Some(skb) => self.section(SectionId::Skb) == Some(Section::Skb(*skb)),
                None => self.section(SectionId::Skb) is None,
            },
    {
        proof {
            lemma_find_has_id(self@, SectionId::Skb);
        }
        match self.get_section(SectionId::Skb) {
            Some(Section::Skb(skb)) => Some(skb),
            _ => None,
        }
    }

    /// Binds `section` under its id, after the sections the event holds. An
    /// event that holds a section under that id stays as it is.
    pub fn insert_section(&mut self, section: Section) -> (r: Result<(), EventError>)
        ensures
            match r {
                Ok(()) => old(self).section(section.id()) is None && final(self)@ == old(self)@.push(
                    section,
                ),
                Err(e) => old(self).section(section.id()) is Some && final(self)@ == old(self)@
                    && e == EventError::AlreadyBound(section.id()),
            },
    {
        let id = section.id();
        if self.get_section(id).is_some() {
            return Err(EventError::AlreadyBound(id));
        }
        proof {
            use_type_invariant(&*self);
            lemma_find_none(self.sections@, id);
        }
        let mut taken = Event::new();
        core::mem::swap(self, &mut taken);
        let mut sections = taken.sections;
        sections.push(section);
        *self = Event { sections };
        Ok(())
    }
}

/// What `find` returns is bound under the id that was asked for.
pub proof fn lemma_find_has_id(sections: Seq<Section>, id: SectionId)
    ensures
        find(sections, id) matches Some(section) ==> section.id() == id && sections.contains(
            section,
        ),
    decreases sections.len(),
{
    if sections.len() > 0 && sections[0].id() != id {
        lemma_find_has_id(sections.drop_first(), id);
        if find(sections, id) is Some {
            let section = find(sections, id)->0;
            let k = choose|k: int|
                0 <= k < sections.drop_first().len() && sections.drop_first()[k] == section;
            assert(sections[k + 1] == section);
        }
    } else if sections.len() > 0 {
        assert(sections[0] == sections[0]);
    }
}

/// Where `find` returns nothing, no section is bound under the id.
pub proof fn lemma_find_none(sections: Seq<Section>, id: SectionId)
    requires
        find(sections, id) is None,
    ensures
        forall|k: int| 0 <= k < sections.len() ==> (#[trigger] sections[k]).id() != id,
    decreases sections.len(),
{
    if sections.len() > 0 {
        lemma_find_none(sections.drop_first(), id);
        assert forall|k: int| 0 <= k < sections.len() implies (#[trigger] sections[k]).id()
            != id by {
            if k > 0 {
                assert(sections[k] == sections.drop_first()[k - 1]);
            }
        }
    }
}

impl Event {
    /// What stands between two sections: a line break in a multi-line
    /// display, a space otherwise.
    pub open spec fn separator(format: &DisplayFormat) -> char {
        if format.multiline {
            '\n'
        } else {
            ' '
        }
    }

    /// Whether a section is shown after the first line of its event: all
    /// are but the common section, which makes the first line, and the
    /// metadata unless the display asks for them.
    pub open spec fn follows(section: &Section, format: &DisplayFormat) -> bool {
        match section {
            Section::Common(_) => false,
            Section::MdCommon(_) => format.show_metadata,
            Section::Skb(_) => true,
        }
    }

    /// What follows the first line of an event: each section that is shown
    /// there, in the order of insertion, each behind a separator.
    pub open spec fn rest_text(
        sections: Seq<Section>,
        format: &DisplayFormat,
        packet: &Dissection,
    ) -> Seq<char>
        decreases sections.len(),
    {
        if sections.len() == 0 {
            Seq::empty()
        } else {
            let last = sections.last();
            Self::rest_text(sections.drop_last(), format, packet) + if Self::follows(
                &last,
                format,
            ) {
                seq![Self::separator(format)] + last.text(format, packet)
            } else {
                Seq::empty()
            }
        }
    }

    /// The first line of the event: its common section.
    pub open spec fn first_line(&self, format: &DisplayFormat) -> Option<Seq<char>> {
        match self.section(SectionId::Common) {
            Some(Section::Common(common)) => Some(common.text(format)),
            _ => None,
        }
    }

    /// An event can be shown when its common section can.
    pub open spec fn can_show(&self, format: &DisplayFormat) -> bool {
        match self.section(SectionId::Common) {
            Some(section) => section.displayable(format),
            None => true,
        }
    }

    /// What an event adds to the output of a formatter at indentation
    /// `level`: the first line at that level, what follows it two steps
    /// deeper. An event without a common section shows nothing.
    pub open spec fn shown(
        &self,
        format: &DisplayFormat,
        packet: &Dissection,
        level: nat,
        start: bool,
    ) -> Seq<char> {
        match self.first_line(format) {
            Some(first) => indented(first, level, start) + indented(
                Self::rest_text(self@, format, packet),
                level + 2,
                ends_line(first, start),
            ),
            None => Seq::empty(),
        }
    }

    /// Writes what follows the first line.
    fn write_rest(&self, f: &mut Formatter, format: &DisplayFormat, packet: &Dissection)
        ensures
            final(f).extends(old(f), Self::rest_text(self@, format, packet)),
    {
        let sep = if format.multiline {
            '\n'
        } else {
            ' '
        };
        let n = self.len();
        let mut i: usize = 0;
        proof {
            lemma_extends_nothing(*f);
        }
        while i < n
            invariant
                i <= n,
                n == self@.len(),
                sep == Self::separator(format),
                f.extends(old(f), Self::rest_text(self@.take(i as int), format, packet)),
            decreases n - i,
        {
            let section = self.section_at(i);
            let follows = match section {
                Section::Common(_) => false,
                Section::MdCommon(_) => format.show_metadata,
                Section::Skb(_) => true,
            };
            let ghost before = Self::rest_text(self@.take(i as int), format, packet);
            proof {
                assert(self@.take(i + 1).drop_last() =~= self@.take(i as int));
                assert(self@.take(i + 1).last() == *section);
            }
            if follows {
                let ghost f1 = *f;
                f.write_char(sep);
                let ghost f2 = *f;
                section.write_to(f, format, packet);
                proof {
                    lemma_extends_twice(f1, f2, *f, seq![sep], section.text(format, packet));
                    lemma_extends_twice(
                        *old(f),
                        f1,
                        *f,
                        before,
                        seq![sep] + section.text(format, packet),
                    );
                }
            } else {
                proof {
                    assert(before + Seq::<char>::empty() =~= before);
                }
            }
            i += 1;
        }
        proof {
            assert(self@.take(n as int) =~= self@);
        }
    }
}

impl EventFmt for Event {
    open spec fn displayable(&self, format: &DisplayFormat) -> bool {
        self.can_show(format)
    }

    open spec fn rendered(
        &self,
        format: &DisplayFormat,
        packet: &Dissection,
        level: nat,
        start: bool,
    ) -> Seq<char> {
        self.shown(format, packet, level, start)
    }

    fn can_display(&self, format: &DisplayFormat) -> (r: bool) {
        match self.common() {
            Some(common) => common.check_time(format),
            None => true,
        }
    }

    fn event_fmt(&self, f: &mut Formatter, format: &DisplayFormat, packet: &Dissection) {
        proof {
            lemma_find_has_id(self@, SectionId::Common);
        }
        let common = match self.common() {
            Some(common) => common,
            None => {
                assert(f.text() + Seq::<char>::empty() =~= f.text());
                return ;
            },
        };
        // The first line of the event is its common section.
        common.write_to(f, format);

        // All the other sections follow.
        f.inc_level(2);
        self.write_rest(f, format, packet);
        f.reset_level();

        proof {
            let level = old(f).levels().level;
            let start = old(f).at_line_start();
            let first = common.text(format);
            let rest = Self::rest_text(self@, format, packet);
            let a = indented(first, level, start);
            let b = indented(rest, level + 2, ends_line(first, start));
            lemma_inc_then_reset(old(f).levels(), 2);
            lemma_indented_ends_line(first, level, start);
            lemma_indented_ends_line(rest, level + 2, ends_line(first, start));
            assert(f.text() =~= old(f).text() + (a + b));
            if b.len() == 0 {
                assert(a + b =~= a);
            } else {
                assert((a + b).last() == b.last());
            }
        }
    }
}

} // verus!
