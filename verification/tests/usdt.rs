use retis::probe::{Probe, Symbol, SymbolKind, UsdtProbe};
use retis::usdt::{BuilderError, BuilderState, Hook, UsdtBuilder, USDT_PROGRAM};

fn hook(program: &str) -> Hook {
    Hook { program: program.to_string(), maps: vec![("events".to_string(), 3)] }
}

fn usdt() -> Probe {
    Probe::Usdt(UsdtProbe {
        pid: 42,
        path: "/usr/bin/x".to_string(),
        provider: "test_builder".to_string(),
        name: "usdt".to_string(),
    })
}

#[test]
fn builder_takes_one_hook_at_most() {
    let mut builder = UsdtBuilder::new();
    assert_eq!(builder.init(vec![], vec![]), Ok(()));
    assert_eq!(builder.init(vec![("m".to_string(), 4)], vec![hook("a")]), Ok(()));
    assert_eq!(builder.shared_maps(), &vec![("m".to_string(), 4)]);
    assert_eq!(
        builder.init(vec![("n".to_string(), 5)], vec![hook("a"), hook("b")]),
        Err(BuilderError::TooManyHooks)
    );
    // The maps are bound before the hooks are looked at.
    assert_eq!(builder.shared_maps(), &vec![("n".to_string(), 5)]);
}

#[test]
fn builder_attaches_and_detaches() {
    let mut builder = UsdtBuilder::new();
    builder.init(vec![], vec![]).unwrap();
    let probe = usdt();
    let attach = builder.attach(&probe).unwrap();
    assert_eq!(attach.program, "probe_usdt");
    assert_eq!(USDT_PROGRAM, "probe_usdt");
    assert_eq!(
        (attach.pid, attach.path, attach.provider, attach.name),
        (42, "/usr/bin/x", "test_builder", "usdt")
    );
    assert_eq!(builder.current_state(), BuilderState::Initialized(0));
    builder.linked();
    builder.linked();
    assert_eq!(builder.current_state(), BuilderState::Initialized(2));
    assert_eq!(builder.detach(), 2);
    assert_eq!(builder.current_state(), BuilderState::Detached);
    assert_eq!(builder.detach(), 0);
}

#[test]
fn builder_turns_other_probes_down() {
    let mut builder = UsdtBuilder::new();
    builder.init(vec![], vec![]).unwrap();
    let symbol = Symbol { kind: SymbolKind::Function, name: "f".to_string(), parameters: None };
    let probe = Probe::Kprobe(symbol);
    assert_eq!(builder.attach(&probe), Err(BuilderError::WrongProbeType));
    assert_eq!(builder.detach(), 0);
}

#[test]
fn detach_of_a_fresh_builder_finds_nothing() {
    let mut builder = UsdtBuilder::new();
    assert_eq!(builder.current_state(), BuilderState::Fresh);
    assert_eq!(builder.detach(), 0);
}
