use retis::inspect::{
    drop_reason_offset, inspect_symbol, InspectError, ProbeConfig, ProbeOffsets, ABSENT,
};
use retis::probe::{Symbol, SymbolKind};

fn symbol(parameters: &[&str]) -> Symbol {
    Symbol {
        kind: SymbolKind::Function,
        name: "f".to_string(),
        parameters: Some(parameters.iter().map(|p| p.to_string()).collect()),
    }
}

fn none() -> ProbeOffsets {
    ProbeOffsets {
        sk_buff: -1,
        skb_drop_reason: -1,
        net_device: -1,
        net: -1,
        nft_pktinfo: -1,
        nft_traceinfo: -1,
    }
}

#[test]
fn default_config_knows_no_parameter() {
    assert_eq!(ABSENT, -1);
    assert_eq!(ProbeOffsets::default(), none());
    assert_eq!(ProbeConfig::default().offsets, none());
}

#[test]
fn parameter_offset_is_the_first_position_of_the_type() {
    let f = symbol(&["int", "struct sk_buff *", "int", "struct sk_buff *"]);
    assert_eq!(f.parameter_offset("int"), Ok(Some(0)));
    assert_eq!(f.parameter_offset("struct sk_buff *"), Ok(Some(1)));
    assert_eq!(f.parameter_offset("struct net *"), Ok(None));
    assert_eq!(symbol(&[]).parameter_offset("int"), Ok(None));
}

#[test]
fn inspection_without_type_information_fails() {
    let f = Symbol { kind: SymbolKind::Function, name: "f".to_string(), parameters: None };
    assert_eq!(f.parameter_offset("int"), Err(InspectError::NoBtf));
    assert_eq!(drop_reason_offset(&f), Err(InspectError::NoBtf));
    assert_eq!(inspect_symbol(&f), Err(InspectError::NoBtf));
}

#[test]
fn inspection_of_a_symbol_without_known_parameters() {
    assert_eq!(inspect_symbol(&symbol(&["int", "char *"])), Ok(ProbeConfig { offsets: none() }));
}

#[test]
fn inspection_finds_the_known_parameters() {
    let f = symbol(&[
        "struct sk_buff *",
        "struct net *",
        "enum skb_drop_reason",
        "struct net_device *",
        "struct nft_traceinfo *",
        "struct nft_pktinfo *",
    ]);
    let offsets = ProbeOffsets {
        sk_buff: 0,
        skb_drop_reason: 2,
        net_device: 3,
        net: 1,
        nft_pktinfo: 5,
        nft_traceinfo: 4,
    };
    assert_eq!(inspect_symbol(&f), Ok(ProbeConfig { offsets }));
}

#[test]
fn the_first_kind_of_drop_reason_wins() {
    let f = symbol(&["enum ovs_drop_reason", "enum mac80211_drop_reason", "enum skb_drop_reason"]);
    assert_eq!(drop_reason_offset(&f), Ok(Some(2)));
    let f = symbol(&["enum ovs_drop_reason", "enum mac80211_drop_reason"]);
    assert_eq!(drop_reason_offset(&f), Ok(Some(1)));
    let f = symbol(&["enum ovs_drop_reason"]);
    assert_eq!(drop_reason_offset(&f), Ok(Some(0)));
    assert_eq!(inspect_symbol(&f).unwrap().offsets.skb_drop_reason, 0);
    assert_eq!(drop_reason_offset(&symbol(&["int"])), Ok(None));
}

#[test]
fn offsets_beyond_a_signed_byte_are_rejected() {
    let mut parameters = vec!["int"; 127];
    parameters.push("struct net *");
    assert_eq!(inspect_symbol(&symbol(&parameters)).unwrap().offsets.net, 127);
    let mut parameters = vec!["int"; 128];
    parameters.push("struct net *");
    assert_eq!(inspect_symbol(&symbol(&parameters)), Err(InspectError::OffsetOutOfRange));
}
