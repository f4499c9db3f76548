//! The JSON form of events: an object keyed by section id, each section an
//! object of its fields in their declared order. A field without a value is
//! `null`.

use vstd::prelude::*;

use crate::common::{CommonEvent, CommonEventMd, TaskEvent};
use crate::event::{Event, Section};
use crate::skb::{
    ArpOperation, RawPacket, SkbArpEvent, SkbDataRefEvent, SkbDevEvent, SkbEthEvent, SkbEvent,
    SkbGsoEvent, SkbIcmpEvent, SkbIcmpV6Event, SkbIpEvent, SkbIpVersion, SkbMetaEvent,
    SkbNsEvent, SkbPacketEvent, SkbTcpEvent, SkbUdpEvent, SkbVlanEvent,
};
use crate::text::{
    dec, join, lemma_join_push, push_dec, push_signed_dec, push_str, signed_dec, string_of,
};
use crate::time::TimeSpec;

verus! {

/// The JSON string that stands for a text: the text between double quotes,
/// with the characters that JSON does not take as they are written as escape
/// sequences, as `serde_json` writes them.
pub uninterp spec fn json_string(s: Seq<char>) -> Seq<char>;

/// `serde_json::to_string` on a string slice: its JSON string. The call
/// fails only through the value's own serialization or through a map with
/// keys that are no strings, and a string slice has neither: there is always
/// a result.
#[verifier::external_body]
fn quote(s: &str) -> (r: Option<String>)
    ensures
        r is Some,
        r matches Some(text) ==> text@ == json_string(s@),
{
    serde_json::to_string(s).ok()
}

/// A name with its value, as it stands in an object.
pub open spec fn member(key: Seq<char>, value: Seq<char>) -> Seq<char> {
    json_string(key) + seq![':'] + value
}

/// An object with the given members.
pub open spec fn object(members: Seq<Seq<char>>) -> Seq<char> {
    seq!['{'] + join(members, ',') + seq!['}']
}

/// An array with the given items.
pub open spec fn array(items: Seq<Seq<char>>) -> Seq<char> {
    seq!['['] + join(items, ',') + seq![']']
}

/// A value that may be missing: `null` stands for a missing one.
pub open spec fn nullable(value: Option<Seq<char>>) -> Seq<char> {
    match value {
        Some(text) => text,
        None => "null"@,
    }
}

/// A truth value.
pub open spec fn boolean(b: bool) -> Seq<char> {
    if b {
        "true"@
    } else {
        "false"@
    }
}

/// A list of JSON texts in the making: members of an object or items of an
/// array.
pub struct JsonList {
    buf: Vec<char>,
    first: bool,
    items: Ghost<Seq<Seq<char>>>,
}

impl JsonList {
    /// The texts taken so far.
    pub closed spec fn items(&self) -> Seq<Seq<char>> {
        self.items@
    }

    /// The buffer holds the texts taken so far, with commas between them.
    pub closed spec fn wf(&self) -> bool {
        &&& self.buf@ == join(self.items@, ',')
        &&& self.first == (self.items@.len() == 0)
    }

    /// An empty list.
    pub fn new() -> (r: JsonList)
        ensures
            r.wf(),
            r.items() == Seq::<Seq<char>>::empty(),
    {
        JsonList { buf: Vec::new(), first: true, items: Ghost(Seq::empty()) }
    }

    /// Begins an item: the comma, unless the item is the first.
    fn begin(&mut self)
        requires
            old(self).wf(),
        ensures
            final(self).items == old(self).items,
            !final(self).first,
            final(self).buf@ == if old(self).items@.len() == 0 {
                Seq::<char>::empty()
            } else {
                join(old(self).items@, ',') + seq![',']
            },
    {
        if self.first {
            self.first = false;
        } else {
            self.buf.push(',');
        }
    }

    /// Takes `text` as the next item.
    pub fn item(&mut self, text: &str)
        requires
            old(self).wf(),
        ensures
            final(self).wf(),
            final(self).items() == old(self).items().push(text@),
    {
        self.begin();
        push_str(&mut self.buf, text);
        proof {
            lemma_join_push(old(self).items@, ',', text@);
            self.items@ = self.items@.push(text@);
            assert(self.buf@ =~= join(self.items@, ','));
        }
    }

    /// Takes `key` with the value `value` as the next member.
    pub fn field(&mut self, key: &str, value: &str)
        requires
            old(self).wf(),
        ensures
            final(self).wf(),
            final(self).items() == old(self).items().push(member(key@, value@)),
    {
        self.begin();
        let ghost mid = self.buf@;
        if let Some(name) = quote(key) {
            push_str(&mut self.buf, name.as_str());
        }
        self.buf.push(':');
        push_str(&mut self.buf, value);
        proof {
            lemma_join_push(old(self).items@, ',', member(key@, value@));
            self.items@ = self.items@.push(member(key@, value@));
            assert(self.buf@ =~= mid + member(key@, value@));
            assert(self.buf@ =~= join(self.items@, ','));
        }
    }

    /// Takes `key` with a number as the next member.
    pub fn field_u64(&mut self, key: &str, value: u64)
        requires
            old(self).wf(),
        ensures
            final(self).wf(),
            final(self).items() == old(self).items().push(member(key@, dec(value as nat))),
    {
        let mut text: Vec<char> = Vec::new();
        push_dec(&mut text, value);
        let text = string_of(&text);
        self.field(key, text.as_str());
    }

    /// Takes `key` with a signed number as the next member.
    pub fn field_i64(&mut self, key: &str, value: i64)
        requires
            old(self).wf(),
        ensures
            final(self).wf(),
            final(self).items() == old(self).items().push(
                member(key@, signed_dec(value as int)),
            ),
    {
        let mut text: Vec<char> = Vec::new();
        push_signed_dec(&mut text, value);
        let text = string_of(&text);
        self.field(key, text.as_str());
    }

    /// Takes `key` with a truth value as the next member.
    pub fn field_bool(&mut self, key: &str, value: bool)
        requires
            old(self).wf(),
        ensures
            final(self).wf(),
            final(self).items() == old(self).items().push(member(key@, boolean(value))),
    {
        if value {
            self.field(key, "true");
        } else {
            self.field(key, "false");
        }
    }

    /// Takes `key` with a text as the next member.
    pub fn field_str(&mut self, key: &str, value: &str)
        requires
            old(self).wf(),
        ensures
            final(self).wf(),
            final(self).items() == old(self).items().push(member(key@, json_string(value@))),
    {
        match quote(value) {
            Some(text) => self.field(key, text.as_str()),
            None => {},
        }
    }

    /// Takes `key` with a value that may be missing as the next member.
    pub fn field_opt(&mut self, key: &str, value: &Option<String>)
        requires
            old(self).wf(),
        ensures
            final(self).wf(),
            final(self).items() == old(self).items().push(
                member(
                    key@,
                    nullable(
                        match value {
                            Some(text) => Some(text@),
                            None => None,
                        },
                    ),
                ),
            ),
    {
        match value {
            Some(text) => self.field(key, text.as_str()),
            None => self.field(key, "null"),
        }
    }

    /// The list as an object.
    pub fn into_object(self) -> (r: String)
        requires
            self.wf(),
        ensures
            r@ == object(self.items()),
    {
        let mut out: Vec<char> = Vec::new();
        out.push('{');
        let mut buf = self.buf;
        out.append(&mut buf);
        out.push('}');
        assert(out@ =~= object(self.items()));
        string_of(&out)
    }

    /// The list as an array.
    pub fn into_array(self) -> (r: String)
        requires
            self.wf(),
        ensures
            r@ == array(self.items()),
    {
        let mut out: Vec<char> = Vec::new();
        out.push('[');
        let mut buf = self.buf;
        out.append(&mut buf);
        out.push(']');
        assert(out@ =~= array(self.items()));
        string_of(&out)
    }
}

impl SkbEthEvent {
    /// `etype`, `src` and `dst`.
    pub open spec fn json(&self) -> Seq<char> {
        object(
            Seq::empty().push(
                member("etype"@, dec(self.etype as nat)),
            ).push(
                member("src"@, json_string(self.src@)),
            ).push(
                member("dst"@, json_string(self.dst@)),
            ),
        )
    }

    /// The record as JSON.
    pub fn to_json(&self) -> (r: String)
        ensures
            r@ == self.json(),
    {
        let mut o = JsonList::new();
        o.field_u64("etype", self.etype as u64);
        o.field_str("src", self.src.as_str());
        o.field_str("dst", self.dst.as_str());
        o.into_object()
    }
}

impl SkbVlanEvent {
    /// `pcp`, `dei`, `vid` and `acceleration`.
    pub open spec fn json(&self) -> Seq<char> {
        object(
            Seq::empty().push(
                member("pcp"@, dec(self.pcp as nat)),
            ).push(
                member("dei"@, boolean(self.dei)),
            ).push(
                member("vid"@, dec(self.vid as nat)),
            ).push(
                member("acceleration"@, boolean(self.acceleration)),
            ),
        )
    }

    /// The record as JSON.
    pub fn to_json(&self) -> (r: String)
        ensures
            r@ == self.json(),
    {
        let mut o = JsonList::new();
        o.field_u64("pcp", self.pcp as u64);
        o.field_bool("dei", self.dei);
        o.field_u64("vid", self.vid as u64);
        o.field_bool("acceleration", self.acceleration);
        o.into_object()
    }
}

impl ArpOperation {
    /// The name of the operation.
    pub open spec fn name(&self) -> Seq<char> {
        match self {
            ArpOperation::Request => "Request"@,
            ArpOperation::Reply => "Reply"@,
            ArpOperation::ReverseRequest => "ReverseRequest"@,
            ArpOperation::ReverseReply => "ReverseReply"@,
        }
    }

    /// The name of the operation.
    pub fn to_str(&self) -> (r: &'static str)
        ensures
            r@ == self.name(),
    {
        match self {
            ArpOperation::Request => "Request",
            ArpOperation::Reply => "Reply",
            ArpOperation::ReverseRequest => "ReverseRequest",
            ArpOperation::ReverseReply => "ReverseReply",
        }
    }
}

impl SkbArpEvent {
    /// `operation` by its name, then the four addresses.
    pub open spec fn json(&self) -> Seq<char> {
        object(
            Seq::empty().push(
                member("operation"@, json_string(self.operation.name())),
            ).push(
                member("sha"@, json_string(self.sha@)),
            ).push(
                member("spa"@, json_string(self.spa@)),
            ).push(
                member("tha"@, json_string(self.tha@)),
            ).push(
                member("tpa"@, json_string(self.tpa@)),
            ),
        )
    }

    /// The record as JSON.
    pub fn to_json(&self) -> (r: String)
        ensures
            r@ == self.json(),
    {
        let mut o = JsonList::new();
        o.field_str("operation", self.operation.to_str());
        o.field_str("sha", self.sha.as_str());
        o.field_str("spa", self.spa.as_str());
        o.field_str("tha", self.tha.as_str());
        o.field_str("tpa", self.tpa.as_str());
        o.into_object()
    }
}

impl SkbIpVersion {
    /// The name of the version: `v4` or `v6`.
    pub open spec fn name(&self) -> Seq<char> {
        match self {
            SkbIpVersion::V4 { .. } => "v4"@,
            SkbIpVersion::V6 { .. } => "v6"@,
        }
    }

    /// What the version adds to the object of the packet: `version` with the
    /// name of the version, then the fields of that version.
    pub open spec fn json_members(&self) -> Seq<Seq<char>> {
        let tag = Seq::empty().push(member("version"@, json_string(self.name())));
        match self {
            SkbIpVersion::V4 { v4 } => tag.push(member("tos"@, dec(v4.tos as nat))).push(
                member("id"@, dec(v4.id as nat)),
            ).push(member("flags"@, dec(v4.flags as nat))).push(
                member("offset"@, dec(v4.offset as nat)),
            ),
            SkbIpVersion::V6 { v6 } => tag.push(member("flow_label"@, dec(v6.flow_label as nat))),
        }
    }
}

impl SkbIpEvent {
    /// The addresses, then the version and its fields as members of this
    /// same object, then the fields both versions have.
    pub open spec fn json(&self) -> Seq<char> {
        let head = Seq::empty().push(member("saddr"@, json_string(self.saddr@))).push(
            member("daddr"@, json_string(self.daddr@)),
        );
        object(
            (head + self.version.json_members()).push(
                member("protocol"@, dec(self.protocol as nat)),
            ).push(member("len"@, dec(self.len as nat))).push(
                member("ttl"@, dec(self.ttl as nat)),
            ).push(member("ecn"@, dec(self.ecn as nat))),
        )
    }

    /// The record as JSON.
    pub fn to_json(&self) -> (r: String)
        ensures
            r@ == self.json(),
    {
        let mut o = JsonList::new();
        o.field_str("saddr", self.saddr.as_str());
        o.field_str("daddr", self.daddr.as_str());
        let ghost head = o.items();
        match self.version {
            SkbIpVersion::V4 { v4 } => {
                o.field_str("version", "v4");
                o.field_u64("tos", v4.tos as u64);
                o.field_u64("id", v4.id as u64);
                o.field_u64("flags", v4.flags as u64);
                o.field_u64("offset", v4.offset as u64);
            },
            SkbIpVersion::V6 { v6 } => {
                o.field_str("version", "v6");
                o.field_u64("flow_label", v6.flow_label as u64);
            },
        }
        assert(o.items() =~= head + self.version.json_members());
        o.field_u64("protocol", self.protocol as u64);
        o.field_u64("len", self.len as u64);
        o.field_u64("ttl", self.ttl as u64);
        o.field_u64("ecn", self.ecn as u64);
        o.into_object()
    }
}

impl SkbTcpEvent {
    /// Ports, sequence numbers, window, data offset and flags.
    pub open spec fn json(&self) -> Seq<char> {
        object(
            Seq::empty().push(
                member("sport"@, dec(self.sport as nat)),
            ).push(
                member("dport"@, dec(self.dport as nat)),
            ).push(
                member("seq"@, dec(self.seq as nat)),
            ).push(
                member("ack_seq"@, dec(self.ack_seq as nat)),
            ).push(
                member("window"@, dec(self.window as nat)),
            ).push(
                member("doff"@, dec(self.doff as nat)),
            ).push(
                member("flags"@, dec(self.flags as nat)),
            ),
        )
    }

    /// The record as JSON.
    pub fn to_json(&self) -> (r: String)
        ensures
            r@ == self.json(),
    {
        let mut o = JsonList::new();
        o.field_u64("sport", self.sport as u64);
        o.field_u64("dport", self.dport as u64);
        o.field_u64("seq", self.seq as u64);
        o.field_u64("ack_seq", self.ack_seq as u64);
        o.field_u64("window", self.window as u64);
        o.field_u64("doff", self.doff as u64);
        o.field_u64("flags", self.flags as u64);
        o.into_object()
    }
}

impl SkbUdpEvent {
    /// Ports and length.
    pub open spec fn json(&self) -> Seq<char> {
        object(
            Seq::empty().push(
                member("sport"@, dec(self.sport as nat)),
            ).push(
                member("dport"@, dec(self.dport as nat)),
            ).push(
                member("len"@, dec(self.len as nat)),
            ),
        )
    }

    /// The record as JSON.
    pub fn to_json(&self) -> (r: String)
        ensures
            r@ == self.json(),
    {
        let mut o = JsonList::new();
        o.field_u64("sport", self.sport as u64);
        o.field_u64("dport", self.dport as u64);
        o.field_u64("len", self.len as u64);
        o.into_object()
    }
}

impl SkbIcmpEvent {
    /// `type` and `code`.
    pub open spec fn json(&self) -> Seq<char> {
        object(
            Seq::empty().push(
                member("type"@, dec(self.type_ as nat)),
            ).push(
                member("code"@, dec(self.code as nat)),
            ),
        )
    }

    /// The record as JSON.
    pub fn to_json(&self) -> (r: String)
        ensures
            r@ == self.json(),
    {
        let mut o = JsonList::new();
        o.field_u64("type", self.type_ as u64);
        o.field_u64("code", self.code as u64);
        o.into_object()
    }
}

impl SkbIcmpV6Event {
    /// `type` and `code`.
    pub open spec fn json(&self) -> Seq<char> {
        object(
            Seq::empty().push(
                member("type"@, dec(self.type_ as nat)),
            ).push(
                member("code"@, dec(self.code as nat)),
            ),
        )
    }

    /// The record as JSON.
    pub fn to_json(&self) -> (r: String)
        ensures
            r@ == self.json(),
    {
        let mut o = JsonList::new();
        o.field_u64("type", self.type_ as u64);
        o.field_u64("code", self.code as u64);
        o.into_object()
    }
}

impl SkbDevEvent {
    /// `name`, `ifindex` and `rx_ifindex`.
    pub open spec fn json(&self) -> Seq<char> {
        object(
            Seq::empty().push(
                member("name"@, json_string(self.name@)),
            ).push(
                member("ifindex"@, dec(self.ifindex as nat)),
            ).push(
                member(
                    "rx_ifindex"@,
                    nullable(
                        match self.rx_ifindex {
                            Some(rx_ifindex) => Some(dec(rx_ifindex as nat)),
                            None => None,
                        },
                    ),
                ),
            ),
        )
    }

    /// The record as JSON.
    pub fn to_json(&self) -> (r: String)
        ensures
            r@ == self.json(),
    {
        let mut o = JsonList::new();
        o.field_str("name", self.name.as_str());
        o.field_u64("ifindex", self.ifindex as u64);
        match self.rx_ifindex {
            Some(rx_ifindex) => o.field_u64("rx_ifindex", rx_ifindex as u64),
            None => o.field("rx_ifindex", "null"),
        }
        o.into_object()
    }
}

impl SkbNsEvent {
    /// `netns`.
    pub open spec fn json(&self) -> Seq<char> {
        object(
            Seq::empty().push(
                member("netns"@, dec(self.netns as nat)),
            ),
        )
    }

    /// The record as JSON.
    pub fn to_json(&self) -> (r: String)
        ensures
            r@ == self.json(),
    {
        let mut o = JsonList::new();
        o.field_u64("netns", self.netns as u64);
        o.into_object()
    }
}

impl SkbMetaEvent {
    /// Lengths, hash, checksum fields and priority.
    pub open spec fn json(&self) -> Seq<char> {
        object(
            Seq::empty().push(
                member("len"@, dec(self.len as nat)),
            ).push(
                member("data_len"@, dec(self.data_len as nat)),
            ).push(
                member("hash"@, dec(self.hash as nat)),
            ).push(
                member("ip_summed"@, dec(self.ip_summed as nat)),
            ).push(
                member("csum"@, dec(self.csum as nat)),
            ).push(
                member("csum_level"@, dec(self.csum_level as nat)),
            ).push(
                member("priority"@, dec(self.priority as nat)),
            ),
        )
    }

    /// The record as JSON.
    pub fn to_json(&self) -> (r: String)
        ensures
            r@ == self.json(),
    {
        let mut o = JsonList::new();
        o.field_u64("len", self.len as u64);
        o.field_u64("data_len", self.data_len as u64);
        o.field_u64("hash", self.hash as u64);
        o.field_u64("ip_summed", self.ip_summed as u64);
        o.field_u64("csum", self.csum as u64);
        o.field_u64("csum_level", self.csum_level as u64);
        o.field_u64("priority", self.priority as u64);
        o.into_object()
    }
}

impl SkbDataRefEvent {
    /// Flags and reference counts.
    pub open spec fn json(&self) -> Seq<char> {
        object(
            Seq::empty().push(
                member("nohdr"@, boolean(self.nohdr)),
            ).push(
                member("cloned"@, boolean(self.cloned)),
            ).push(
                member("fclone"@, dec(self.fclone as nat)),
            ).push(
                member("users"@, dec(self.users as nat)),
            ).push(
                member("dataref"@, dec(self.dataref as nat)),
            ),
        )
    }

    /// The record as JSON.
    pub fn to_json(&self) -> (r: String)
        ensures
            r@ == self.json(),
    {
        let mut o = JsonList::new();
        o.field_bool("nohdr", self.nohdr);
        o.field_bool("cloned", self.cloned);
        o.field_u64("fclone", self.fclone as u64);
        o.field_u64("users", self.users as u64);
        o.field_u64("dataref", self.dataref as u64);
        o.into_object()
    }
}

impl SkbGsoEvent {
    /// `flags`, `frags`, `size`, `segs` and `type`.
    pub open spec fn json(&self) -> Seq<char> {
        object(
            Seq::empty().push(
                member("flags"@, dec(self.flags as nat)),
            ).push(
                member("frags"@, dec(self.frags as nat)),
            ).push(
                member("size"@, dec(self.size as nat)),
            ).push(
                member("segs"@, dec(self.segs as nat)),
            ).push(
                member("type"@, dec(self.type_ as nat)),
            ),
        )
    }

    /// The record as JSON.
    pub fn to_json(&self) -> (r: String)
        ensures
            r@ == self.json(),
    {
        let mut o = JsonList::new();
        o.field_u64("flags", self.flags as u64);
        o.field_u64("frags", self.frags as u64);
        o.field_u64("size", self.size as u64);
        o.field_u64("segs", self.segs as u64);
        o.field_u64("type", self.type_ as u64);
        o.into_object()
    }
}

impl RawPacket {
    /// The bytes as an array of numbers.
    pub open spec fn json(&self) -> Seq<char> {
        array(self.0@.map_values(|b: u8| dec(b as nat)))
    }

    /// The bytes as JSON.
    pub fn to_json(&self) -> (r: String)
        ensures
            r@ == self.json(),
    {
        let mut list = JsonList::new();
        let mut i: usize = 0;
        while i < self.0.len()
            invariant
                i <= self.0.len(),
                list.wf(),
                list.items() == self.0@.take(i as int).map_values(|b: u8| dec(b as nat)),
            decreases self.0.len() - i,
        {
            let mut text: Vec<char> = Vec::new();
            push_dec(&mut text, self.0[i] as u64);
            let text = string_of(&text);
            list.item(text.as_str());
            i += 1;
            assert(list.items() =~= self.0@.take(i as int).map_values(|b: u8| dec(b as nat)));
        }
        assert(self.0@.take(i as int) =~= self.0@);
        list.into_array()
    }
}

impl SkbPacketEvent {
    /// `len`, `capture_len` and the bytes of `packet`.
    pub open spec fn json(&self) -> Seq<char> {
        object(
            Seq::empty().push(
                member("len"@, dec(self.len as nat)),
            ).push(
                member("capture_len"@, dec(self.capture_len as nat)),
            ).push(
                member("packet"@, self.packet.json()),
            ),
        )
    }

    /// The record as JSON.
    pub fn to_json(&self) -> (r: String)
        ensures
            r@ == self.json(),
    {
        let mut o = JsonList::new();
        o.field_u64("len", self.len as u64);
        o.field_u64("capture_len", self.capture_len as u64);
        o.field("packet", self.packet.to_json().as_str());
        o.into_object()
    }
}

impl SkbEvent {
    /// Every part under its name, in the order they are declared.
    pub open spec fn json(&self) -> Seq<char> {
        object(
            Seq::empty().push(
                member(
                    "eth"@,
                    nullable(
                        match self.eth {
                            Some(v) => Some(v.json()),
                            None => None,
                        },
                    ),
                ),
            ).push(
                member(
                    "vlan"@,
                    nullable(
                        match self.vlan {
                            Some(v) => Some(v.json()),
                            None => None,
                        },
                    ),
                ),
            ).push(
                member(
                    "arp"@,
                    nullable(
                        match self.arp {
                            Some(v) => Some(v.json()),
                            None => None,
                        },
                    ),
                ),
            ).push(
                member(
                    "ip"@,
                    nullable(
                        match self.ip {
                            Some(v) => Some(v.json()),
                            None => None,
                        },
                    ),
                ),
            ).push(
                member(
                    "tcp"@,
                    nullable(
                        match self.tcp {
                            Some(v) => Some(v.json()),
                            None => None,
                        },
                    ),
                ),
            ).push(
                member(
                    "udp"@,
                    nullable(
                        match self.udp {
                            Some(v) => Some(v.json()),
                            None => None,
                        },
                    ),
                ),
            ).push(
                member(
                    "icmp"@,
                    nullable(
                        match self.icmp {
                            Some(v) => Some(v.json()),
                            None => None,
                        },
                    ),
                ),
            ).push(
                member(
                    "icmpv6"@,
                    nullable(
                        match self.icmpv6 {
                            Some(v) => Some(v.json()),
                            None => None,
                        },
                    ),
                ),
            ).push(
                member(
                    "dev"@,
                    nullable(
                        match self.dev {
                            Some(v) => Some(v.json()),
                            None => None,
                        },
                    ),
                ),
            ).push(
                member(
                    "ns"@,
                    nullable(
                        match self.ns {
                            Some(v) => Some(v.json()),
                            None => None,
                        },
                    ),
                ),
            ).push(
                member(
                    "meta"@,
                    nullable(
                        match self.meta {
                            Some(v) => Some(v.json()),
                            None => None,
                        },
                    ),
                ),
            ).push(
                member(
                    "data_ref"@,
                    nullable(
                        match self.data_ref {
                            Some(v) => Some(v.json()),
                            None => None,
                        },
                    ),
                ),
            ).push(
                member(
                    "gso"@,
                    nullable(
                        match self.gso {
                            Some(v) => Some(v.json()),
                            None => None,
                        },
                    ),
                ),
            ).push(
                member(
                    "packet"@,
                    nullable(
                        match self.packet {
                            Some(v) => Some(v.json()),
                            None => None,
                        },
                    ),
                ),
            ),
        )
    }

    /// The section as JSON.
    pub fn to_json(&self) -> (r: String)
        ensures
            r@ == self.json(),
    {
        let mut o = JsonList::new();
        let eth = match &self.eth {
            Some(v) => Some(v.to_json()),
            None => None,
        };
        o.field_opt("eth", &eth);
        let vlan = match &self.vlan {
            Some(v) => Some(v.to_json()),
            None => None,
        };
        o.field_opt("vlan", &vlan);
        let arp = match &self.arp {
            Some(v) => Some(v.to_json()),
            None => None,
        };
        o.field_opt("arp", &arp);
        let ip = match &self.ip {
            Some(v) => Some(v.to_json()),
            None => None,
        };
        o.field_opt("ip", &ip);
        let tcp = match &self.tcp {
            Some(v) => Some(v.to_json()),
            None => None,
        };
        o.field_opt("tcp", &tcp);
        let udp = match &self.udp {
            Some(v) => Some(v.to_json()),
            None => None,
        };
        o.field_opt("udp", &udp);
        let icmp = match &self.icmp {
            Some(v) => Some(v.to_json()),
            None => None,
        };
        o.field_opt("icmp", &icmp);
        let icmpv6 = match &self.icmpv6 {
            Some(v) => Some(v.to_json()),
            None => None,
        };
        o.field_opt("icmpv6", &icmpv6);
        let dev = match &self.dev {
            Some(v) => Some(v.to_json()),
            None => None,
        };
        o.field_opt("dev", &dev);
        let ns = match &self.ns {
            Some(v) => Some(v.to_json()),
            None => None,
        };
        o.field_opt("ns", &ns);
        let meta = match &self.meta {
            Some(v) => Some(v.to_json()),
            None => None,
        };
        o.field_opt("meta", &meta);
        let data_ref = match &self.data_ref {
            Some(v) => Some(v.to_json()),
            None => None,
        };
        o.field_opt("data_ref", &data_ref);
        let gso = match &self.gso {
            Some(v) => Some(v.to_json()),
            None => None,
        };
        o.field_opt("gso", &gso);
        let packet = match &self.packet {
            Some(v) => Some(v.to_json()),
            None => None,
        };
        o.field_opt("packet", &packet);
        o.into_object()
    }
}

impl TimeSpec {
    /// `sec` and `nsec`.
    pub open spec fn json(&self) -> Seq<char> {
        object(
            Seq::empty().push(
                member("sec"@, signed_dec(self.secs())),
            ).push(
                member("nsec"@, signed_dec(self.nanos())),
            ),
        )
    }

    /// The value as JSON.
    pub fn to_json(&self) -> (r: String)
        ensures
            r@ == self.json(),
    {
        let mut o = JsonList::new();
        o.field_i64("sec", self.sec());
        o.field_i64("nsec", self.nsec());
        o.into_object()
    }
}

impl CommonEventMd {
    /// `retis_version` and `clock_monotonic_offset`.
    pub open spec fn json(&self) -> Seq<char> {
        object(
            Seq::empty().push(
                member("retis_version"@, json_string(self.retis_version@)),
            ).push(
                member("clock_monotonic_offset"@, self.clock_monotonic_offset.json()),
            ),
        )
    }

    /// The record as JSON.
    pub fn to_json(&self) -> (r: String)
        ensures
            r@ == self.json(),
    {
        let mut o = JsonList::new();
        o.field_str("retis_version", self.retis_version.as_str());
        o.field("clock_monotonic_offset", self.clock_monotonic_offset.to_json().as_str());
        o.into_object()
    }
}

impl TaskEvent {
    /// `pid`, `tgid` and `comm`.
    pub open spec fn json(&self) -> Seq<char> {
        object(
            Seq::empty().push(
                member("pid"@, signed_dec(self.pid as int)),
            ).push(
                member("tgid"@, signed_dec(self.tgid as int)),
            ).push(
                member("comm"@, json_string(self.comm@)),
            ),
        )
    }

    /// The record as JSON.
    pub fn to_json(&self) -> (r: String)
        ensures
            r@ == self.json(),
    {
        let mut o = JsonList::new();
        o.field_i64("pid", self.pid as i64);
        o.field_i64("tgid", self.tgid as i64);
        o.field_str("comm", self.comm.as_str());
        o.into_object()
    }
}

impl CommonEvent {
    /// `timestamp`, `smp_id` and `task`.
    pub open spec fn json(&self) -> Seq<char> {
        object(
            Seq::empty().push(
                member("timestamp"@, dec(self.timestamp as nat)),
            ).push(
                member("smp_id"@, dec(self.smp_id as nat)),
            ).push(
                member(
                    "task"@,
                    nullable(
                        match self.task {
                            Some(task) => Some(task.json()),
                            None => None,
                        },
                    ),
                ),
            ),
        )
    }

    /// The section as JSON.
    pub fn to_json(&self) -> (r: String)
        ensures
            r@ == self.json(),
    {
        let mut o = JsonList::new();
        o.field_u64("timestamp", self.timestamp);
        o.field_u64("smp_id", self.smp_id as u64);
        match &self.task {
            Some(task) => o.field("task", task.to_json().as_str()),
            None => o.field("task", "null"),
        }
        o.into_object()
    }
}

impl Section {
    /// The JSON object of the section.
    pub open spec fn json(&self) -> Seq<char> {
        match self {
            Section::MdCommon(md) => md.json(),
            Section::Common(common) => common.json(),
            Section::Skb(skb) => skb.json(),
        }
    }

    /// The section as JSON.
    pub fn to_json(&self) -> (r: String)
        ensures
            r@ == self.json(),
    {
        match self {
            Section::MdCommon(md) => md.to_json(),
            Section::Common(common) => common.to_json(),
            Section::Skb(skb) => skb.to_json(),
        }
    }
}

impl Event {
    /// An object with one member for each section, named by the id of the
    /// section, in the order of insertion.
    pub open spec fn json(&self) -> Seq<char> {
        object(self@.map_values(|section: Section| member(section.id().name(), section.json())))
    }

    /// The event as JSON.
    pub fn to_json(&self) -> (r: String)
        ensures
            r@ == self.json(),
    {
        let mut o = JsonList::new();
        let n = self.len();
        let mut i: usize = 0;
        while i < n
            invariant
                i <= n,
                n == self@.len(),
                o.wf(),
                o.items() == self@.take(i as int).map_values(
                    |section: Section| member(section.id().name(), section.json()),
                ),
            decreases n - i,
        {
            let section = self.section_at(i);
            o.field(section.id().to_str(), section.to_json().as_str());
            i += 1;
            assert(o.items() =~= self@.take(i as int).map_values(
                |section: Section| member(section.id().name(), section.json()),
            ));
        }
        assert(self@.take(i as int) =~= self@);
        o.into_object()
    }
}

} // verus!
