use retis::common::{CommonEvent, TaskEvent};
use retis::event::{Event, Section};
use retis::json::JsonList;
use retis::skb::{
    ArpOperation, RawPacket, SkbArpEvent, SkbDataRefEvent, SkbDevEvent, SkbEthEvent, SkbEvent,
    SkbGsoEvent, SkbIcmpEvent, SkbIcmpV6Event, SkbIpEvent, SkbIpVersion, SkbIpv4Event,
    SkbIpv6Event, SkbMetaEvent, SkbNsEvent, SkbPacketEvent, SkbTcpEvent, SkbUdpEvent,
    SkbVlanEvent,
};
use retis::time::TimeSpec;

#[test]
fn json_list_as_object_and_array() {
    let mut list = JsonList::new();
    list.field_u64("a", 1);
    list.field_i64("b", -2);
    list.field_bool("c", true);
    list.field_bool("d", false);
    list.field_str("e", "f");
    list.field("g", "[]");
    list.field_opt("h", &None);
    list.field_opt("i", &Some("7".to_string()));
    assert_eq!(
        list.into_object(),
        "{\"a\":1,\"b\":-2,\"c\":true,\"d\":false,\"e\":\"f\",\"g\":[],\"h\":null,\"i\":7}"
    );
    let mut list = JsonList::new();
    list.item("1");
    list.item("");
    list.item("2");
    assert_eq!(list.into_array(), "[1,,2]");
    assert_eq!(JsonList::new().into_object(), "{}");
    assert_eq!(JsonList::new().into_array(), "[]");
}

#[test]
fn json_strings_are_escaped() {
    let task = TaskEvent { pid: 1, tgid: -1, comm: "a\"b\\c\nd".to_string() };
    assert_eq!(task.to_json(), "{\"pid\":1,\"tgid\":-1,\"comm\":\"a\\\"b\\\\c\\nd\"}");
    let parsed: serde_json::Value = serde_json::from_str(&task.to_json()).unwrap();
    assert_eq!(parsed["comm"].as_str(), Some("a\"b\\c\nd"));
}

#[test]
fn json_of_a_time() {
    assert_eq!(TimeSpec::new(-5, 7).to_json(), "{\"sec\":-5,\"nsec\":7}");
}

#[test]
fn json_of_the_common_section_with_a_task() {
    let task = TaskEvent { pid: 2, tgid: 1, comm: "c".to_string() };
    let common = CommonEvent { timestamp: 3, smp_id: 4, task: Some(task) };
    assert_eq!(
        common.to_json(),
        "{\"timestamp\":3,\"smp_id\":4,\"task\":{\"pid\":2,\"tgid\":1,\"comm\":\"c\"}}"
    );
}

#[test]
fn json_of_ip_flattens_the_version() {
    let mut ip = SkbIpEvent {
        saddr: "1.1.1.1".to_string(),
        daddr: "2.2.2.2".to_string(),
        version: SkbIpVersion::V4 { v4: SkbIpv4Event { tos: 0, id: 1, flags: 2, offset: 3 } },
        protocol: 6,
        len: 40,
        ttl: 64,
        ecn: 0,
    };
    assert_eq!(
        ip.to_json(),
        "{\"saddr\":\"1.1.1.1\",\"daddr\":\"2.2.2.2\",\"version\":\"v4\",\"tos\":0,\"id\":1,\
         \"flags\":2,\"offset\":3,\"protocol\":6,\"len\":40,\"ttl\":64,\"ecn\":0}"
    );
    ip.version = SkbIpVersion::V6 { v6: SkbIpv6Event { flow_label: 9 } };
    assert_eq!(
        ip.to_json(),
        "{\"saddr\":\"1.1.1.1\",\"daddr\":\"2.2.2.2\",\"version\":\"v6\",\"flow_label\":9,\
         \"protocol\":6,\"len\":40,\"ttl\":64,\"ecn\":0}"
    );
}

#[test]
fn json_of_the_small_records() {
    let eth = SkbEthEvent { etype: 2048, src: "a".to_string(), dst: "b".to_string() };
    assert_eq!(eth.to_json(), "{\"etype\":2048,\"src\":\"a\",\"dst\":\"b\"}");
    let vlan = SkbVlanEvent { pcp: 1, dei: true, vid: 2, acceleration: false };
    assert_eq!(vlan.to_json(), "{\"pcp\":1,\"dei\":true,\"vid\":2,\"acceleration\":false}");
    let arp = SkbArpEvent {
        operation: ArpOperation::ReverseReply,
        sha: "a".to_string(),
        spa: "b".to_string(),
        tha: "c".to_string(),
        tpa: "d".to_string(),
    };
    assert_eq!(
        arp.to_json(),
        "{\"operation\":\"ReverseReply\",\"sha\":\"a\",\"spa\":\"b\",\"tha\":\"c\",\"tpa\":\"d\"}"
    );
    assert_eq!(ArpOperation::Request.to_str(), "Request");
    assert_eq!(ArpOperation::Reply.to_str(), "Reply");
    assert_eq!(ArpOperation::ReverseRequest.to_str(), "ReverseRequest");
    let tcp = SkbTcpEvent {
        sport: 1,
        dport: 2,
        seq: 3,
        ack_seq: 4,
        window: 5,
        doff: 6,
        flags: 7,
    };
    assert_eq!(
        tcp.to_json(),
        "{\"sport\":1,\"dport\":2,\"seq\":3,\"ack_seq\":4,\"window\":5,\"doff\":6,\"flags\":7}"
    );
    let udp = SkbUdpEvent { sport: 1, dport: 2, len: 3 };
    assert_eq!(udp.to_json(), "{\"sport\":1,\"dport\":2,\"len\":3}");
    assert_eq!(SkbIcmpEvent { type_: 8, code: 0 }.to_json(), "{\"type\":8,\"code\":0}");
    assert_eq!(SkbIcmpV6Event { type_: 128, code: 1 }.to_json(), "{\"type\":128,\"code\":1}");
    let dev = SkbDevEvent { name: "eth0".to_string(), ifindex: 3, rx_ifindex: Some(4) };
    assert_eq!(dev.to_json(), "{\"name\":\"eth0\",\"ifindex\":3,\"rx_ifindex\":4}");
    let dev = SkbDevEvent { name: "eth0".to_string(), ifindex: 3, rx_ifindex: None };
    assert_eq!(dev.to_json(), "{\"name\":\"eth0\",\"ifindex\":3,\"rx_ifindex\":null}");
    assert_eq!(SkbNsEvent { netns: 42 }.to_json(), "{\"netns\":42}");
    let meta = SkbMetaEvent {
        len: 1,
        data_len: 2,
        hash: 3,
        ip_summed: 4,
        csum: 5,
        csum_level: 6,
        priority: 7,
    };
    assert_eq!(
        meta.to_json(),
        "{\"len\":1,\"data_len\":2,\"hash\":3,\"ip_summed\":4,\"csum\":5,\"csum_level\":6,\
         \"priority\":7}"
    );
    let data_ref = SkbDataRefEvent { nohdr: true, cloned: false, fclone: 1, users: 2, dataref: 3 };
    assert_eq!(
        data_ref.to_json(),
        "{\"nohdr\":true,\"cloned\":false,\"fclone\":1,\"users\":2,\"dataref\":3}"
    );
    let gso = SkbGsoEvent { flags: 1, frags: 2, size: 3, segs: 4, type_: 5 };
    assert_eq!(gso.to_json(), "{\"flags\":1,\"frags\":2,\"size\":3,\"segs\":4,\"type\":5}");
    let packet = SkbPacketEvent { len: 3, capture_len: 2, packet: RawPacket(vec![0, 255]) };
    assert_eq!(packet.to_json(), "{\"len\":3,\"capture_len\":2,\"packet\":[0,255]}");
    assert_eq!(RawPacket(vec![]).to_json(), "[]");
}

#[test]
fn json_of_the_skb_section_keeps_every_part() {
    let mut skb = SkbEvent::default();
    assert_eq!(
        skb.to_json(),
        "{\"eth\":null,\"vlan\":null,\"arp\":null,\"ip\":null,\"tcp\":null,\"udp\":null,\
         \"icmp\":null,\"icmpv6\":null,\"dev\":null,\"ns\":null,\"meta\":null,\
         \"data_ref\":null,\"gso\":null,\"packet\":null}"
    );
    skb.vlan = Some(SkbVlanEvent { pcp: 1, dei: true, vid: 2, acceleration: false });
    skb.ns = Some(SkbNsEvent { netns: 42 });
    assert_eq!(
        skb.to_json(),
        "{\"eth\":null,\"vlan\":{\"pcp\":1,\"dei\":true,\"vid\":2,\"acceleration\":false},\
         \"arp\":null,\"ip\":null,\"tcp\":null,\"udp\":null,\"icmp\":null,\"icmpv6\":null,\
         \"dev\":null,\"ns\":{\"netns\":42},\"meta\":null,\"data_ref\":null,\"gso\":null,\
         \"packet\":null}"
    );
}

#[test]
fn json_of_an_event_follows_the_order_of_insertion() {
    let mut event = Event::new();
    assert_eq!(event.to_json(), "{}");
    let mut skb = SkbEvent::default();
    skb.ns = Some(SkbNsEvent { netns: 1 });
    let skb_json = skb.to_json();
    event.insert_section(Section::Skb(skb)).unwrap();
    let common = Section::Common(CommonEvent { timestamp: 1, smp_id: 0, task: None });
    assert_eq!(common.to_json(), "{\"timestamp\":1,\"smp_id\":0,\"task\":null}");
    event.insert_section(common).unwrap();
    assert_eq!(
        event.to_json(),
        format!(
            "{{\"skb\":{skb_json},\"common\":{{\"timestamp\":1,\"smp_id\":0,\"task\":null}}}}"
        )
    );
    let parsed: serde_json::Value = serde_json::from_str(&event.to_json()).unwrap();
    assert_eq!(parsed["skb"]["ns"]["netns"].as_u64(), Some(1));
}
