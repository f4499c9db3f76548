use retis::probe::{
    parse_cli_probe, probe_from_cli, CliProbeType, Probe, ProbeError, Symbol, SymbolKind,
    UsdtProbe,
};

#[test]
fn probe_without_type_is_a_kprobe() {
    assert_eq!(parse_cli_probe("consume_skb"), Ok((CliProbeType::Kprobe, "consume_skb")));
    assert_eq!(parse_cli_probe(""), Ok((CliProbeType::Kprobe, "")));
}

#[test]
fn probe_with_a_short_type() {
    assert_eq!(parse_cli_probe("kr:kfree_skb"), Ok((CliProbeType::Kretprobe, "kfree_skb")));
    assert_eq!(parse_cli_probe("k:kfree_skb"), Ok((CliProbeType::Kprobe, "kfree_skb")));
    assert_eq!(parse_cli_probe("tp:skb:kfree_skb"), Ok((CliProbeType::RawTracepoint, "skb:kfree_skb")));
}

#[test]
fn probe_with_a_long_type() {
    assert_eq!(parse_cli_probe("kprobe:a"), Ok((CliProbeType::Kprobe, "a")));
    assert_eq!(parse_cli_probe("kretprobe:a"), Ok((CliProbeType::Kretprobe, "a")));
    assert_eq!(parse_cli_probe("raw_tracepoint:a:b"), Ok((CliProbeType::RawTracepoint, "a:b")));
    assert_eq!(parse_cli_probe("k:"), Ok((CliProbeType::Kprobe, "")));
    assert_eq!(parse_cli_probe("k:é:ü"), Ok((CliProbeType::Kprobe, "é:ü")));
}

#[test]
fn unknown_type_before_the_only_colon_is_part_of_a_tracepoint() {
    assert_eq!(parse_cli_probe("skb:kfree_skb"), Ok((CliProbeType::RawTracepoint, "skb:kfree_skb")));
    assert_eq!(parse_cli_probe("xyz:foo"), Ok((CliProbeType::RawTracepoint, "xyz:foo")));
    assert_eq!(parse_cli_probe(":"), Ok((CliProbeType::RawTracepoint, ":")));
}

#[test]
fn unknown_type_before_more_colons_is_an_error() {
    assert_eq!(parse_cli_probe("xyz:foo:bar"), Err(ProbeError::InvalidType("xyz".to_string())));
    assert_eq!(parse_cli_probe("::"), Err(ProbeError::InvalidType(String::new())));
    assert_eq!(parse_cli_probe("K:a:b"), Err(ProbeError::InvalidType("K".to_string())));
}

#[test]
fn probe_type_names() {
    assert_eq!(CliProbeType::Kprobe.to_str(), "kprobe");
    assert_eq!(CliProbeType::Kretprobe.to_str(), "kretprobe");
    assert_eq!(CliProbeType::RawTracepoint.to_str(), "raw_tracepoint");
}

fn symbol(kind: SymbolKind, name: &str) -> Symbol {
    Symbol { kind, name: name.to_string(), parameters: None }
}

#[test]
fn probes_take_symbols_of_their_kind() {
    let function = symbol(SymbolKind::Function, "f");
    let event = symbol(SymbolKind::Event, "e");
    assert_eq!(Probe::kprobe(function.clone()), Ok(Probe::Kprobe(function.clone())));
    assert_eq!(Probe::kretprobe(function.clone()), Ok(Probe::Kretprobe(function.clone())));
    assert_eq!(Probe::raw_tracepoint(event.clone()), Ok(Probe::RawTracepoint(event.clone())));
    assert_eq!(Probe::kprobe(event.clone()), Err(ProbeError::WrongSymbol));
    assert_eq!(Probe::kretprobe(event), Err(ProbeError::WrongSymbol));
    assert_eq!(Probe::raw_tracepoint(function), Err(ProbeError::WrongSymbol));
    let usdt = UsdtProbe {
        pid: 1,
        path: "/bin/x".to_string(),
        provider: "p".to_string(),
        name: "n".to_string(),
    };
    assert_eq!(Probe::usdt(usdt.clone()), Ok(Probe::Usdt(usdt)));
}

#[test]
fn probes_of_the_symbols_that_pass_the_filter() {
    let symbols = vec![
        symbol(SymbolKind::Function, "a"),
        symbol(SymbolKind::Function, "skip"),
        symbol(SymbolKind::Function, "b"),
    ];
    let probes = probe_from_cli(CliProbeType::Kretprobe, symbols, |s: &Symbol| s.name != "skip");
    assert_eq!(
        probes,
        Ok(vec![
            Probe::Kretprobe(symbol(SymbolKind::Function, "a")),
            Probe::Kretprobe(symbol(SymbolKind::Function, "b")),
        ])
    );
    assert_eq!(probe_from_cli(CliProbeType::Kprobe, vec![], |_: &Symbol| true), Ok(vec![]));
    let events = vec![symbol(SymbolKind::Event, "skb:kfree_skb")];
    assert_eq!(
        probe_from_cli(CliProbeType::RawTracepoint, events, |_: &Symbol| true),
        Ok(vec![Probe::RawTracepoint(symbol(SymbolKind::Event, "skb:kfree_skb"))])
    );
}

#[test]
fn probes_of_symbols_of_the_wrong_kind() {
    let symbols = vec![symbol(SymbolKind::Function, "a"), symbol(SymbolKind::Event, "e")];
    assert_eq!(
        probe_from_cli(CliProbeType::Kprobe, symbols.clone(), |_: &Symbol| true),
        Err(ProbeError::WrongSymbol)
    );
    // A symbol that the filter turns down is never made into a probe.
    assert_eq!(
        probe_from_cli(CliProbeType::Kprobe, symbols, |s: &Symbol| s.kind == SymbolKind::Function),
        Ok(vec![Probe::Kprobe(symbol(SymbolKind::Function, "a"))])
    );
}
