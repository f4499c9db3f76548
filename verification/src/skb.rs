//! The section of an event that describes a network packet buffer.

use vstd::prelude::*;

use crate::display::{
    lemma_extends_emitted, lemma_extends_nothing, lemma_extends_twice, DelimWriter, Dissection,
    DisplayFormat, EventFmt, Formatter, indented,
};
use crate::text::{dec, hex, join};

verus! {

/// Network namespace fields.
#[derive(Debug, Clone, Copy, PartialEq, Eq, Structural)]
pub struct SkbNsEvent {
    /// Id of the network namespace associated with the packet, from the device
    /// or the associated socket (in that order).
    pub netns: u32,
}

impl SkbNsEvent {
    /// `ns <netns>`.
    pub open spec fn text(&self) -> Seq<char> {
        "ns "@ + dec(self.netns as nat)
    }

    /// Writes the namespace.
    pub fn write_to(&self, f: &mut Formatter)
        ensures
            final(f).extends(old(f), self.text()),
    {
        broadcast use lemma_extends_twice;

        f.write_str("ns ");
        f.write_dec(self.netns as u64);
    }
}

/// Network device fields.
#[derive(Debug, Clone, PartialEq, Eq)]
pub struct SkbDevEvent {
    /// Net device name associated with the packet, from `skb->dev->name`.
    pub name: String,
    /// Net device ifindex associated with the packet, from `skb->dev->ifindex`.
    pub ifindex: u32,
    /// Index if the net device the packet arrived on, from `skb->skb_iif`.
    pub rx_ifindex: Option<u32>,
}

impl Default for SkbDevEvent {
    fn default() -> (r: Self)
        ensures
            r.name@ == Seq::<char>::empty(),
            r.ifindex == 0,
            r.rx_ifindex == None::<u32>,
    {
        SkbDevEvent { name: String::new(), ifindex: 0, rx_ifindex: None }
    }
}

impl SkbDevEvent {
    /// `if <ifindex>`, the name in brackets where there is one, both only for
    /// an interface index above zero.
    pub open spec fn device_text(&self) -> Seq<char> {
        if self.ifindex > 0 {
            "if "@ + dec(self.ifindex as nat) + if self.name@.len() > 0 {
                " ("@ + self.name@ + ")"@
            } else {
                Seq::empty()
            }
        } else {
            Seq::empty()
        }
    }

    /// ` rxif <rx_ifindex>` where the receiving interface is known.
    pub open spec fn rx_text(&self) -> Seq<char> {
        match self.rx_ifindex {
            Some(rx_ifindex) => " rxif "@ + dec(rx_ifindex as nat),
            None => Seq::empty(),
        }
    }

    /// The device, then the receiving interface.
    pub open spec fn text(&self) -> Seq<char> {
        self.device_text() + self.rx_text()
    }

    /// Writes the device.
    pub fn write_to(&self, f: &mut Formatter)
        ensures
            final(f).extends(old(f), self.text()),
    {
        broadcast use lemma_extends_twice;

        let ghost f0 = *f;
        if self.ifindex > 0 {
            f.write_str("if ");
            f.write_dec(self.ifindex as u64);
            if !self.name.as_str().is_empty() {
                f.write_str(" (");
                f.write_str(self.name.as_str());
                f.write_str(")");
            } else {
                proof {
                    lemma_extends_nothing(*f);
                }
            }
            assert(f.extends(&f0, self.device_text()));
        } else {
            proof {
                lemma_extends_nothing(*f);
            }
        }
        let ghost f2 = *f;
        if let Some(rx_ifindex) = self.rx_ifindex {
            f.write_str(" rxif ");
            f.write_dec(rx_ifindex as u64);
        } else {
            proof {
                lemma_extends_nothing(*f);
            }
        }
        assert(f.extends(&f2, self.rx_text()));
    }
}

/// Ethernet fields.
#[derive(Debug, Clone, PartialEq, Eq)]
pub struct SkbEthEvent {
    /// Ethertype.
    pub etype: u16,
    /// Source MAC address.
    pub src: String,
    /// Destination MAC address.
    pub dst: String,
}

/// VLAN fields.
#[derive(Debug, Clone, Copy, PartialEq, Eq, Structural)]
pub struct SkbVlanEvent {
    /// Priority Code Point, also called CoS.
    pub pcp: u8,
    /// Drop eligible indicator.
    pub dei: bool,
    /// VLAN ID.
    pub vid: u16,
    /// VLAN acceleration field.
    pub acceleration: bool,
}

impl SkbVlanEvent {
    /// `vlan (id <vid> prio <pcp>)`, with ` drop` and ` accel` before the
    /// closing bracket where they apply.
    pub open spec fn text(&self) -> Seq<char> {
        "vlan (id "@ + dec(self.vid as nat) + " prio "@ + dec(self.pcp as nat) + if self.dei {
            " drop"@
        } else {
            ""@
        } + if self.acceleration {
            " accel"@
        } else {
            ""@
        } + ")"@
    }

    /// Writes the VLAN tag.
    pub fn write_to(&self, f: &mut Formatter)
        ensures
            final(f).extends(old(f), self.text()),
    {
        broadcast use lemma_extends_twice;

        let drop = if self.dei {
            " drop"
        } else {
            ""
        };
        let accel = if self.acceleration {
            " accel"
        } else {
            ""
        };
        f.write_str("vlan (id ");
        f.write_dec(self.vid as u64);
        f.write_str(" prio ");
        f.write_dec(self.pcp as u64);
        f.write_str(drop);
        f.write_str(accel);
        f.write_str(")");
    }
}

/// ARP operation type.
#[derive(Debug, Clone, Copy, PartialEq, Eq, Structural)]
pub enum ArpOperation {
    Request,
    Reply,
    ReverseRequest,
    ReverseReply,
}

/// ARP fields.
#[derive(Debug, Clone, PartialEq, Eq)]
pub struct SkbArpEvent {
    /// Operation type.
    pub operation: ArpOperation,
    /// Sender hardware address.
    pub sha: String,
    /// Sender protocol address.
    pub spa: String,
    /// Target hardware address.
    pub tha: String,
    /// Target protocol address.
    pub tpa: String,
}

/// IPv4 specific fields.
#[derive(Debug, Clone, Copy, PartialEq, Eq, Structural)]
pub struct SkbIpv4Event {
    /// Type of service.
    pub tos: u8,
    /// Identification.
    pub id: u16,
    /// Flags (CE, DF, MF).
    pub flags: u8,
    /// Fragment offset.
    pub offset: u16,
}

/// IPv6 specific fields.
#[derive(Debug, Clone, Copy, PartialEq, Eq, Structural)]
pub struct SkbIpv6Event {
    /// Flow label.
    pub flow_label: u32,
}

/// IP version and specific fields.
#[derive(Debug, Clone, Copy, PartialEq, Eq, Structural)]
pub enum SkbIpVersion {
    V4 { v4: SkbIpv4Event },
    V6 { v6: SkbIpv6Event },
}

/// IPv4/IPv6 fields.
#[derive(Debug, Clone, PartialEq, Eq)]
pub struct SkbIpEvent {
    /// Source IP address.
    pub saddr: String,
    /// Destination IP address.
    pub daddr: String,
    /// IP version: 4 or 6.
    pub version: SkbIpVersion,
    /// L4 protocol, from IPv4 "protocol" field or IPv6 "next header" one.
    pub protocol: u8,
    /// "total len" from the IPv4 header or "payload length" from the IPv6 one.
    pub len: u16,
    /// TTL in the IPv4 header and hop limit in the IPv6 one.
    pub ttl: u8,
    /// ECN.
    pub ecn: u8,
}

/// TCP fields.
#[derive(Debug, Clone, Copy, PartialEq, Eq, Structural)]
pub struct SkbTcpEvent {
    /// Source port.
    pub sport: u16,
    /// Destination port.
    pub dport: u16,
    pub seq: u32,
    pub ack_seq: u32,
    pub window: u16,
    /// Data offset.
    pub doff: u8,
    /// Bitfield of TCP flags as defined in `struct tcphdr` in the kernel.
    pub flags: u8,
}

/// UDP fields.
#[derive(Debug, Clone, Copy, PartialEq, Eq, Structural)]
pub struct SkbUdpEvent {
    /// Source port.
    pub sport: u16,
    /// Destination port.
    pub dport: u16,
    /// Length from the UDP header.
    pub len: u16,
}

/// ICMP fields.
#[derive(Debug, Clone, Copy, PartialEq, Eq, Structural)]
pub struct SkbIcmpEvent {
    /// Message type.
    pub type_: u8,
    pub code: u8,
}

/// ICMPv6 fields.
#[derive(Debug, Clone, Copy, PartialEq, Eq, Structural)]
pub struct SkbIcmpV6Event {
    /// Message type.
    pub type_: u8,
    pub code: u8,
}

/// Skb metadata & related fields.
#[derive(Debug, Clone, Copy, PartialEq, Eq, Structural)]
pub struct SkbMetaEvent {
    /// Total number of bytes in the packet.
    pub len: u32,
    /// Total number of bytes in the page buffer area.
    pub data_len: u32,
    /// Packet hash (!= hash of the packet data).
    pub hash: u32,
    /// Checksum status.
    pub ip_summed: u8,
    /// Packet checksum (ip_summed == CHECKSUM_COMPLETE) or checksum
    /// start and offset (ip_summed == CHECKSUM_PARTIAL).
    pub csum: u32,
    /// Checksum level (ip_summed == CHECKSUM_UNNECESSARY)
    pub csum_level: u8,
    /// QoS priority.
    pub priority: u32,
}

impl SkbMetaEvent {
    /// The checksum status by name, with what belongs to it, and a space.
    pub open spec fn csum_text(&self) -> Seq<char> {
        if self.ip_summed == 0 {
            "none "@
        } else if self.ip_summed == 1 {
            "unnecessary (level "@ + dec(self.csum_level as nat) + ") "@
        } else if self.ip_summed == 2 {
            "complete ("@ + hex(self.csum as nat) + ") "@
        } else if self.ip_summed == 3 {
            "partial (start "@ + dec((self.csum & 0xffff) as nat) + (" off "@ + dec(
                (self.csum >> 16) as nat,
            ) + ") "@)
        } else {
            "unknown ("@ + dec(self.ip_summed as nat) + ") "@
        }
    }

    /// `hash <hash> ` for a hash that is not zero.
    pub open spec fn hash_text(&self) -> Seq<char> {
        if self.hash != 0 {
            "hash "@ + hex(self.hash as nat) + " "@
        } else {
            Seq::empty()
        }
    }

    /// `data_len <data_len> ` for a length that is not zero.
    pub open spec fn data_len_text(&self) -> Seq<char> {
        if self.data_len != 0 {
            "data_len "@ + dec(self.data_len as nat) + " "@
        } else {
            Seq::empty()
        }
    }

    /// Checksum, hash, length, paged length and priority.
    pub open spec fn text(&self) -> Seq<char> {
        "csum "@ + self.csum_text() + self.hash_text() + ("len "@ + dec(self.len as nat) + " "@)
            + self.data_len_text() + "priority "@ + dec(self.priority as nat)
    }

    /// Writes the checksum status.
    pub fn write_csum(&self, f: &mut Formatter)
        ensures
            final(f).extends(old(f), self.csum_text()),
    {
        match self.ip_summed {
            0 => {
                f.write_str("none ");
            },
            1 => {
                f.write_labeled_dec("unnecessary (level ", self.csum_level as u64, ") ");
            },
            2 => {
                f.write_labeled_hex("complete (", self.csum as u64, ") ");
            },
            3 => {
                broadcast use lemma_extends_twice;

                let start: u32 = self.csum & 0xffff;
                let off: u32 = self.csum >> 16;
                f.write_str("partial (start ");
                f.write_dec(start as u64);
                f.write_labeled_dec(" off ", off as u64, ") ");
                assert(f.extends(
                    old(f),
                    "partial (start "@ + dec(start as nat) + (" off "@ + dec(off as nat) + ") "@),
                ));
            },
            x => {
                f.write_labeled_dec("unknown (", x as u64, ") ");
            },
        }
    }

    /// Writes the hash, where it is not zero.
    fn write_hash(&self, f: &mut Formatter)
        ensures
            final(f).extends(old(f), self.hash_text()),
    {
        if self.hash != 0 {
            f.write_labeled_hex("hash ", self.hash as u64, " ");
        } else {
            proof {
                lemma_extends_nothing(*f);
            }
        }
    }

    /// Writes the paged length, where it is not zero.
    fn write_data_len(&self, f: &mut Formatter)
        ensures
            final(f).extends(old(f), self.data_len_text()),
    {
        if self.data_len != 0 {
            f.write_labeled_dec("data_len ", self.data_len as u64, " ");
        } else {
            proof {
                lemma_extends_nothing(*f);
            }
        }
    }

    /// Writes the metadata.
    pub fn write_to(&self, f: &mut Formatter)
        ensures
            final(f).extends(old(f), self.text()),
    {
        broadcast use lemma_extends_twice;

        f.write_str("csum ");
        self.write_csum(f);
        self.write_hash(f);
        f.write_labeled_dec("len ", self.len as u64, " ");
        self.write_data_len(f);
        f.write_str("priority ");
        f.write_dec(self.priority as u64);
    }
}

/// Skb data & refcnt fields.
#[derive(Debug, Clone, Copy, PartialEq, Eq, Structural)]
pub struct SkbDataRefEvent {
    /// Payload reference only.
    pub nohdr: bool,
    /// Is the skb a clone?
    pub cloned: bool,
    /// Skb fast clone information.
    pub fclone: u8,
    /// Users count.
    pub users: u8,
    /// Data refcount.
    pub dataref: u8,
}

impl SkbDataRefEvent {
    /// `fclone <fclone> ` for a value above zero.
    pub open spec fn fclone_text(&self) -> Seq<char> {
        if self.fclone > 0 {
            "fclone "@ + dec(self.fclone as nat) + " "@
        } else {
            Seq::empty()
        }
    }

    /// The flags that are set, then the two counts.
    pub open spec fn text(&self) -> Seq<char> {
        (if self.nohdr {
            "nohdr "@
        } else {
            Seq::empty()
        }) + (if self.cloned {
            "cloned "@
        } else {
            Seq::empty()
        }) + self.fclone_text() + "users "@ + dec(self.users as nat) + " dataref "@ + dec(
            self.dataref as nat,
        )
    }

    /// Writes the reference counts.
    pub fn write_to(&self, f: &mut Formatter)
        ensures
            final(f).extends(old(f), self.text()),
    {
        broadcast use lemma_extends_twice;

        if self.nohdr {
            f.write_str("nohdr ");
        } else {
            proof {
                lemma_extends_nothing(*f);
            }
        }
        if self.cloned {
            f.write_str("cloned ");
        } else {
            proof {
                lemma_extends_nothing(*f);
            }
        }
        let ghost f2 = *f;
        if self.fclone > 0 {
            f.write_str("fclone ");
            f.write_dec(self.fclone as u64);
            f.write_str(" ");
        } else {
            proof {
                lemma_extends_nothing(*f);
            }
        }
        assert(f.extends(&f2, self.fclone_text()));
        f.write_str("users ");
        f.write_dec(self.users as u64);
        f.write_str(" dataref ");
        f.write_dec(self.dataref as u64);
    }
}

/// GSO information.
#[derive(Debug, Clone, Copy, PartialEq, Eq, Structural)]
pub struct SkbGsoEvent {
    /// GSO flags, see `SKBFL_*` in include/linux/skbuff.h
    pub flags: u8,
    /// Number of fragments in `skb_shared_info->frags`.
    pub frags: u8,
    /// GSO size.
    pub size: u32,
    /// Number of GSO segments.
    pub segs: u32,
    /// GSO type, see `SKB_GSO_*` in include/linux/skbuff.h
    pub type_: u32,
}

impl SkbGsoEvent {
    /// `flags <flags> ` for flags that are not zero.
    pub open spec fn flags_text(&self) -> Seq<char> {
        if self.flags != 0 {
            "flags "@ + hex(self.flags as nat) + " "@
        } else {
            Seq::empty()
        }
    }

    /// `frags <frags> ` for a count that is not zero.
    pub open spec fn frags_text(&self) -> Seq<char> {
        if self.frags != 0 {
            "frags "@ + dec(self.frags as nat) + " "@
        } else {
            Seq::empty()
        }
    }

    /// `segs <segs> ` for a count that is not zero.
    pub open spec fn segs_text(&self) -> Seq<char> {
        if self.segs != 0 {
            "segs "@ + dec(self.segs as nat) + " "@
        } else {
            Seq::empty()
        }
    }

    /// `gso [type <type> size <size>]`, with flags, fragments and segments
    /// in between where they are not zero.
    pub open spec fn text(&self) -> Seq<char> {
        ("gso [type "@ + hex(self.type_ as nat) + " "@) + self.flags_text() + self.frags_text()
            + self.segs_text() + ("size "@ + dec(self.size as nat) + "]"@)
    }

    /// Writes the flags, where they are not zero.
    fn write_flags(&self, f: &mut Formatter)
        ensures
            final(f).extends(old(f), self.flags_text()),
    {
        if self.flags != 0 {
            f.write_labeled_hex("flags ", self.flags as u64, " ");
        } else {
            proof {
                lemma_extends_nothing(*f);
            }
        }
    }

    /// Writes the number of fragments, where it is not zero.
    fn write_frags(&self, f: &mut Formatter)
        ensures
            final(f).extends(old(f), self.frags_text()),
    {
        if self.frags != 0 {
            f.write_labeled_dec("frags ", self.frags as u64, " ");
        } else {
            proof {
                lemma_extends_nothing(*f);
            }
        }
    }

    /// Writes the number of segments, where it is not zero.
    fn write_segs(&self, f: &mut Formatter)
        ensures
            final(f).extends(old(f), self.segs_text()),
    {
        if self.segs != 0 {
            f.write_labeled_dec("segs ", self.segs as u64, " ");
        } else {
            proof {
                lemma_extends_nothing(*f);
            }
        }
    }

    /// Writes the GSO information.
    pub fn write_to(&self, f: &mut Formatter)
        ensures
            final(f).extends(old(f), self.text()),
    {
        broadcast use lemma_extends_twice;

        f.write_labeled_hex("gso [type ", self.type_ as u64, " ");
        self.write_flags(f);
        self.write_frags(f);
        self.write_segs(f);
        f.write_labeled_dec("size ", self.size as u64, "]");
    }
}

/// The bytes of a packet as they were captured.
#[derive(Debug, Clone, PartialEq, Eq)]
pub struct RawPacket(pub Vec<u8>);

/// Raw packet and related metadata extracted from skbs.
#[derive(Debug, Clone, PartialEq, Eq)]
pub struct SkbPacketEvent {
    /// Length of the packet.
    pub len: u32,
    /// Length of the capture. <= len.
    pub capture_len: u32,
    /// Raw packet data.
    pub packet: RawPacket,
}

/// The list that holds `text` where there is one, and nothing else.
pub open spec fn part(text: Option<Seq<char>>) -> Seq<Seq<char>> {
    match text {
        Some(t) => seq![t],
        None => Seq::empty(),
    }
}

/// A list written with a [`DelimWriter`] grows by one part: the delimiter,
/// unless the part is the first, then the part.
pub proof fn lemma_part_written(
    f0: Formatter,
    f1: Formatter,
    f2: Formatter,
    f3: Formatter,
    parts: Seq<Seq<char>>,
    sep: char,
    text: Seq<char>,
)
    requires
        f1.extends(&f0, join(parts, sep)),
        f2.extends(
            &f1,
            if parts.len() > 0 {
                seq![sep]
            } else {
                Seq::empty()
            },
        ),
        f3.extends(&f2, text),
    ensures
        f3.extends(&f0, join(parts + seq![text], sep)),
{
    let delim = if parts.len() > 0 {
        seq![sep]
    } else {
        Seq::empty()
    };
    lemma_extends_twice(f0, f1, f2, join(parts, sep), delim);
    lemma_extends_twice(f0, f2, f3, join(parts, sep) + delim, text);
    let all = parts + seq![text];
    assert(all.drop_last() =~= parts);
    assert(all.last() == text);
    assert(join(all, sep) =~= join(parts, sep) + delim + text);
}

/// Skb event section.
#[derive(Debug, Clone, PartialEq, Eq)]
pub struct SkbEvent {
    /// Ethernet fields, if any.
    pub eth: Option<SkbEthEvent>,
    /// VLAN tag fields, if any.
    pub vlan: Option<SkbVlanEvent>,
    /// ARP fields, if any.
    pub arp: Option<SkbArpEvent>,
    /// IPv4 or IPv6 fields, if any.
    pub ip: Option<SkbIpEvent>,
    /// TCP fields, if any.
    pub tcp: Option<SkbTcpEvent>,
    /// UDP fields, if any.
    pub udp: Option<SkbUdpEvent>,
    /// ICMP fields, if any.
    pub icmp: Option<SkbIcmpEvent>,
    /// ICMPv6 fields, if any.
    pub icmpv6: Option<SkbIcmpV6Event>,
    /// Net device data, if any.
    pub dev: Option<SkbDevEvent>,
    /// Net namespace data, if any.
    pub ns: Option<SkbNsEvent>,
    /// Skb metadata, if any.
    pub meta: Option<SkbMetaEvent>,
    /// Skb data-related and refcnt information, if any.
    pub data_ref: Option<SkbDataRefEvent>,
    /// GSO information.
    pub gso: Option<SkbGsoEvent>,
    /// Raw packet and related metadata.
    pub packet: Option<SkbPacketEvent>,
}

impl Default for SkbEvent {
    fn default() -> (r: Self)
        ensures
            r.eth is None,
            r.vlan is None,
            r.arp is None,
            r.ip is None,
            r.tcp is None,
            r.udp is None,
            r.icmp is None,
            r.icmpv6 is None,
            r.dev is None,
            r.ns is None,
            r.meta is None,
            r.data_ref is None,
            r.gso is None,
            r.packet is None,
    {
        SkbEvent {
            eth: None,
            vlan: None,
            arp: None,
            ip: None,
            tcp: None,
            udp: None,
            icmp: None,
            icmpv6: None,
            dev: None,
            ns: None,
            meta: None,
            data_ref: None,
            gso: None,
            packet: None,
        }
    }
}

impl SkbEvent {
    /// The metadata, where there is any.
    pub open spec fn meta_text(&self) -> Seq<char> {
        match self.meta {
            Some(meta) => meta.text(),
            None => Seq::empty(),
        }
    }

    /// One space where both metadata and reference counts are shown.
    pub open spec fn gap_text(&self) -> Seq<char> {
        if self.meta is Some && self.data_ref is Some {
            " "@
        } else {
            Seq::empty()
        }
    }

    /// The reference counts, where there are any.
    pub open spec fn data_ref_text(&self) -> Seq<char> {
        match self.data_ref {
            Some(data_ref) => data_ref.text(),
            None => Seq::empty(),
        }
    }

    /// `skb [<metadata> <reference counts>]`.
    pub open spec fn skb_text(&self) -> Seq<char> {
        "skb ["@ + self.meta_text() + self.gap_text() + self.data_ref_text() + "]"@
    }

    /// What is shown before the packet itself, in order: namespace, device,
    /// VLAN tag (only with link-layer information), metadata with reference
    /// counts, GSO. Each is there when the event holds it.
    pub open spec fn head_parts(&self, format: &DisplayFormat) -> Seq<Seq<char>> {
        part(
            match self.ns {
                Some(ns) => Some(ns.text()),
                None => None,
            },
        ) + part(
            match self.dev {
                Some(dev) => Some(dev.text()),
                None => None,
            },
        ) + part(
            match self.vlan {
                Some(vlan) if format.print_ll => Some(vlan.text()),
                _ => None,
            },
        ) + part(
            if self.meta is Some || self.data_ref is Some {
                Some(self.skb_text())
            } else {
                None
            },
        ) + part(
            match self.gso {
                Some(gso) => Some(gso.text()),
                None => None,
            },
        )
    }

    /// How the packet itself is shown: by what the disassembler said of it,
    /// nothing after a broken pipe, `unknown packet` where the disassembler
    /// failed or the event holds no packet.
    pub open spec fn packet_text(&self, packet: &Dissection) -> Seq<char> {
        if self.packet is Some {
            match packet {
                Dissection::Text(line) => line@,
                Dissection::BrokenPipe => Seq::empty(),
                Dissection::Failed => "unknown packet"@,
            }
        } else {
            "unknown packet"@
        }
    }

    /// The whole section: the head parts with one space between each two,
    /// then the packet, after a line break in a multi-line display and after
    /// a space otherwise. Without head parts the packet stands alone.
    pub open spec fn text(&self, format: &DisplayFormat, packet: &Dissection) -> Seq<char> {
        let head = self.head_parts(format);
        if head.len() > 0 {
            join(head, ' ') + seq![
                if format.multiline {
                    '\n'
                } else {
                    ' '
                },
            ] + self.packet_text(packet)
        } else {
            self.packet_text(packet)
        }
    }

    /// Writes the metadata and the reference counts in their brackets.
    fn write_skb(&self, f: &mut Formatter)
        ensures
            final(f).extends(old(f), self.skb_text()),
    {
        broadcast use lemma_extends_twice;

        f.write_str("skb [");
        if let Some(meta) = &self.meta {
            meta.write_to(f);
        } else {
            proof {
                lemma_extends_nothing(*f);
            }
        }
        if self.meta.is_some() && self.data_ref.is_some() {
            f.write_str(" ");
        } else {
            proof {
                lemma_extends_nothing(*f);
            }
        }
        if let Some(dataref) = &self.data_ref {
            dataref.write_to(f);
        } else {
            proof {
                lemma_extends_nothing(*f);
            }
        }
        f.write_str("]");
    }

    /// Writes the packet itself.
    fn write_packet(&self, f: &mut Formatter, packet: &Dissection)
        ensures
            final(f).extends(old(f), self.packet_text(packet)),
    {
        if self.packet.is_some() {
            match packet {
                Dissection::Text(line) => {
                    f.write_str(line.as_str());
                },
                Dissection::BrokenPipe => {
                    // Seen when the program is interrupted: stay silent.
                    proof {
                        lemma_extends_nothing(*f);
                    }
                },
                Dissection::Failed => {
                    f.write_str("unknown packet");
                },
            }
        } else {
            f.write_str("unknown packet");
        }
    }
}

impl SkbEvent {
    /// Writes the section.
    pub fn write_to(&self, f: &mut Formatter, format: &DisplayFormat, packet: &Dissection)
        ensures
            final(f).extends(old(f), self.text(format, packet)),
    {
        let mut space = DelimWriter::new(' ');
        let ghost f0 = *f;
        let ghost mut parts: Seq<Seq<char>> = Seq::empty();
        proof {
            lemma_extends_nothing(f0);
        }

        if let Some(ns) = &self.ns {
            let ghost f1 = *f;
            space.write(f);
            let ghost f2 = *f;
            ns.write_to(f);
            proof {
                lemma_part_written(f0, f1, f2, *f, parts, ' ', ns.text());
                parts = parts + seq![ns.text()];
            }
        }
        assert(parts =~= part(
            match self.ns {
                Some(ns) => Some(ns.text()),
                None => None,
            },
        ));

        if let Some(dev) = &self.dev {
            let ghost f1 = *f;
            space.write(f);
            let ghost f2 = *f;
            dev.write_to(f);
            proof {
                lemma_part_written(f0, f1, f2, *f, parts, ' ', dev.text());
                parts = parts + seq![dev.text()];
            }
        }

        // Only print VLAN accel information if we print the LL one, as
        // otherwise we would print this one but not the VLAN data in the
        // payload. This would be quite confusing.
        if format.print_ll {
            if let Some(vlan) = &self.vlan {
                let ghost f1 = *f;
                space.write(f);
                let ghost f2 = *f;
                vlan.write_to(f);
                proof {
                    lemma_part_written(f0, f1, f2, *f, parts, ' ', vlan.text());
                    parts = parts + seq![vlan.text()];
                }
            }
        }

        if self.meta.is_some() || self.data_ref.is_some() {
            let ghost f1 = *f;
            space.write(f);
            let ghost f2 = *f;
            self.write_skb(f);
            proof {
                lemma_part_written(f0, f1, f2, *f, parts, ' ', self.skb_text());
                parts = parts + seq![self.skb_text()];
            }
        }

        if let Some(gso) = &self.gso {
            let ghost f1 = *f;
            space.write(f);
            let ghost f2 = *f;
            gso.write_to(f);
            proof {
                lemma_part_written(f0, f1, f2, *f, parts, ' ', gso.text());
                parts = parts + seq![gso.text()];
            }
        }
        assert(parts =~= self.head_parts(format));
        assert(f.extends(&f0, join(parts, ' ')));
        assert(space.used() == (parts.len() > 0));

        // Do not add any other section than the raw packet one after this.
        let ghost f3 = *f;
        if format.multiline && space.used() {
            f.write_char('\n');
            space.reset();
        } else {
            proof {
                lemma_extends_nothing(*f);
            }
        }
        let ghost f4 = *f;
        space.write(f);
        let ghost f5 = *f;
        self.write_packet(f, packet);
        proof {
            let head = join(parts, ' ');
            let a = if format.multiline && parts.len() > 0 {
                seq!['\n']
            } else {
                Seq::empty()
            };
            let b = if !format.multiline && parts.len() > 0 {
                seq![' ']
            } else {
                Seq::empty()
            };
            lemma_extends_twice(f0, f3, f4, head, a);
            lemma_extends_twice(f0, f4, f5, head + a, b);
            lemma_extends_twice(f0, f5, *f, head + a + b, self.packet_text(packet));
            assert(head + a + b + self.packet_text(packet) =~= self.text(format, packet));
        }
    }
}

impl EventFmt for SkbEvent {
    /// A packet buffer can always be shown.
    open spec fn displayable(&self, format: &DisplayFormat) -> bool {
        true
    }

    fn can_display(&self, format: &DisplayFormat) -> (r: bool) {
        true
    }

    open spec fn rendered(
        &self,
        format: &DisplayFormat,
        packet: &Dissection,
        level: nat,
        start: bool,
    ) -> Seq<char> {
        indented(self.text(format, packet), level, start)
    }

    fn event_fmt(&self, f: &mut Formatter, format: &DisplayFormat, packet: &Dissection) {
        self.write_to(f, format, packet);
        proof {
            lemma_extends_emitted(*old(f), *f, self.text(format, packet));
        }
    }
}

} // verus!
