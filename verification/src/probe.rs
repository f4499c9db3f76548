//! Probes: where in the kernel, or in a program, events are collected.

use vstd::prelude::*;
use vstd::std_specs::iter::IteratorSpec;
use vstd::string::StrSliceExecFns;

use crate::text::{chars_of, same_chars};

verus! {

/// Probe type for probes given through cli arguments.
#[derive(Debug, Clone, Copy, PartialEq, Eq, Structural)]
pub enum CliProbeType {
    Kprobe,
    Kretprobe,
    RawTracepoint,
}

impl CliProbeType {
    /// The name of the probe type.
    pub open spec fn name(&self) -> Seq<char> {
        match self {
            CliProbeType::Kprobe => "kprobe"@,
            CliProbeType::Kretprobe => "kretprobe"@,
            CliProbeType::RawTracepoint => "raw_tracepoint"@,
        }
    }

    /// The name of the probe type.
    pub fn to_str(&self) -> (r: &'static str)
        ensures
            r@ == self.name(),
    {
        match self {
            CliProbeType::Kprobe => "kprobe",
            CliProbeType::Kretprobe => "kretprobe",
            CliProbeType::RawTracepoint => "raw_tracepoint",
        }
    }
}

/// Why a probe was not made.
#[derive(Debug, Clone, PartialEq, Eq)]
pub enum ProbeError {
    /// The probe names a type that is none of the known ones.
    InvalidType(String),
    /// The symbol is not of the kind that the probe attaches to.
    WrongSymbol,
}

/// Where the first colon of `s` stands; the length of `s` where there is
/// none.
pub open spec fn first_colon(s: Seq<char>) -> int
    decreases s.len(),
{
    if s.len() == 0 {
        0
    } else if s[0] == ':' {
        0
    } else {
        1 + first_colon(s.drop_first())
    }
}

/// A position before which no colon stands, and which holds one or ends the
/// text, is that of the first colon.
pub proof fn lemma_first_colon(s: Seq<char>, at: int)
    requires
        0 <= at <= s.len(),
        forall|k: int| 0 <= k < at ==> s[k] != ':',
        at < s.len() ==> s[at] == ':',
    ensures
        first_colon(s) == at,
    decreases at,
{
    if at > 0 {
        let rest = s.drop_first();
        assert forall|k: int| 0 <= k < at - 1 implies rest[k] != ':' by {
            assert(rest[k] == s[k + 1]);
        }
        lemma_first_colon(rest, at - 1);
    }
}

/// The type of a probe given on the command line, by its long or its short
/// name.
pub open spec fn known_type(name: Seq<char>) -> Option<CliProbeType> {
    if name == "kprobe"@ || name == "k"@ {
        Some(CliProbeType::Kprobe)
    } else if name == "kretprobe"@ || name == "kr"@ {
        Some(CliProbeType::Kretprobe)
    } else if name == "raw_tracepoint"@ || name == "tp"@ {
        Some(CliProbeType::RawTracepoint)
    } else {
        None
    }
}

/// What a probe given on the command line stands for: its type and its
/// target, or the type that is not known.
///
/// Without a colon the whole is the target of a kprobe. Else what stands
/// before the first colon names the type and what follows is the target.
/// Where that name is not known and no second colon follows, the whole is
/// the target of a raw tracepoint, whose names hold a colon.
pub open spec fn spec_parse_cli_probe(input: Seq<char>) -> Result<
    (CliProbeType, Seq<char>),
    Seq<char>,
> {
    let at = first_colon(input);
    if at == input.len() {
        Ok((CliProbeType::Kprobe, input))
    } else {
        let name = input.take(at);
        let target = input.skip(at + 1);
        match known_type(name) {
            Some(kind) => Ok((kind, target)),
            None => if !target.contains(':') {
                Ok((CliProbeType::RawTracepoint, input))
            } else {
                Err(name)
            },
        }
    }
}

/// The type that the characters of `chars` before `to` name.
fn type_named(chars: &Vec<char>, to: usize) -> (r: Option<CliProbeType>)
    requires
        to <= chars.len(),
    ensures
        r == known_type(chars@.take(to as int)),
{
    assert(chars@.take(to as int) =~= chars@.subrange(0, to as int));
    if same_chars(chars, 0, to, &chars_of("kprobe")) || same_chars(chars, 0, to, &chars_of("k")) {
        Some(CliProbeType::Kprobe)
    } else if same_chars(chars, 0, to, &chars_of("kretprobe")) || same_chars(
        chars,
        0,
        to,
        &chars_of("kr"),
    ) {
        Some(CliProbeType::Kretprobe)
    } else if same_chars(chars, 0, to, &chars_of("raw_tracepoint")) || same_chars(
        chars,
        0,
        to,
        &chars_of("tp"),
    ) {
        Some(CliProbeType::RawTracepoint)
    } else {
        None
    }
}

/// The position of the first colon at or after `from`; the length of
/// `chars` where there is none.
fn find_colon(chars: &Vec<char>, from: usize) -> (at: usize)
    requires
        from <= chars.len(),
    ensures
        from <= at <= chars.len(),
        forall|k: int| from <= k < at ==> chars@[k] != ':',
        at < chars.len() ==> chars@[at as int] == ':',
{
    let mut at = from;
    while at < chars.len() && chars[at] != ':'
        invariant
            from <= at <= chars.len(),
            forall|k: int| from <= k < at ==> chars@[k] != ':',
        decreases chars.len() - at,
    {
        at += 1;
    }
    at
}

/// Parses a probe given as a command line argument: returns its type and
/// its target.
pub fn parse_cli_probe(input: &str) -> (r: Result<(CliProbeType, &str), ProbeError>)
    ensures
        match r {
            Ok((kind, target)) => spec_parse_cli_probe(input@) == Ok::<
                (CliProbeType, Seq<char>),
                Seq<char>,
            >((kind, target@)),
            Err(e) => e matches ProbeError::InvalidType(name) && spec_parse_cli_probe(input@)
                == Err::<(CliProbeType, Seq<char>), Seq<char>>(name@),
        },
{
    let chars = chars_of(input);
    let len = chars.len();
    let at = find_colon(&chars, 0);
    proof {
        lemma_first_colon(input@, at as int);
    }
    if at == len {
        // If no ':' was found, defaults to kprobe.
        return Ok((CliProbeType::Kprobe, input));
    }
    match type_named(&chars, at) {
        Some(kind) => {
            let target = input.substring_char(at + 1, len);
            assert(target@ =~= input@.skip(at + 1));
            Ok((kind, target))
        },
        None => {
            // If a single ':' was found in the probe name but we didn't match
            // any known type, defaults to trying using it as a raw tracepoint.
            let next = find_colon(&chars, at + 1);
            let ghost target = input@.skip(at + 1);
            if next == len {
                assert(!target.contains(':')) by {
                    if target.contains(':') {
                        let k = choose|k: int| 0 <= k < target.len() && target[k] == ':';
                        assert(chars@[at + 1 + k] == ':');
                    }
                }
                Ok((CliProbeType::RawTracepoint, input))
            } else {
                assert(target[next - at - 1] == ':');
                let name = input.substring_char(0, at);
                assert(name@ =~= input@.take(at as int));
                Err(ProbeError::InvalidType(crate::text::string_of(&chars_of(name))))
            }
        },
    }
}

/// What a symbol names.
#[derive(Debug, Clone, Copy, PartialEq, Eq, Structural)]
pub enum SymbolKind {
    /// A function of the kernel.
    Function,
    /// A tracepoint of the kernel.
    Event,
}

/// A function or a tracepoint of the kernel, with what the type
/// information of the kernel tells of its parameters.
#[derive(Debug, Clone, PartialEq, Eq)]
pub struct Symbol {
    pub kind: SymbolKind,
    pub name: String,
    /// The type of each parameter, by name, in the order of the parameters.
    /// `None` where the kernel has no type information.
    pub parameters: Option<Vec<String>>,
}

/// A tracepoint of a program.
#[derive(Debug, Clone, PartialEq, Eq)]
pub struct UsdtProbe {
    /// The process that runs the program.
    pub pid: i32,
    /// The file of the program.
    pub path: String,
    pub provider: String,
    pub name: String,
}

/// A probe.
#[derive(Debug, Clone, PartialEq, Eq)]
pub enum Probe {
    Kprobe(Symbol),
    Kretprobe(Symbol),
    RawTracepoint(Symbol),
    Usdt(UsdtProbe),
}

impl Probe {
    /// The probe of the given type on `symbol`: functions take kprobes and
    /// kretprobes, tracepoints take raw tracepoints.
    pub open spec fn spec_of(kind: CliProbeType, symbol: Symbol) -> Result<Probe, ProbeError> {
        match kind {
            CliProbeType::Kprobe => if symbol.kind == SymbolKind::Function {
                Ok(Probe::Kprobe(symbol))
            } else {
                Err(ProbeError::WrongSymbol)
            },
            CliProbeType::Kretprobe => if symbol.kind == SymbolKind::Function {
                Ok(Probe::Kretprobe(symbol))
            } else {
                Err(ProbeError::WrongSymbol)
            },
            CliProbeType::RawTracepoint => if symbol.kind == SymbolKind::Event {
                Ok(Probe::RawTracepoint(symbol))
            } else {
                Err(ProbeError::WrongSymbol)
            },
        }
    }

    /// A probe at the entry of a function.
    pub fn kprobe(symbol: Symbol) -> (r: Result<Probe, ProbeError>)
        ensures
            r == Self::spec_of(CliProbeType::Kprobe, symbol),
    {
        match symbol.kind {
            SymbolKind::Function => Ok(Probe::Kprobe(symbol)),
            SymbolKind::Event => Err(ProbeError::WrongSymbol),
        }
    }

    /// A probe at the return of a function.
    pub fn kretprobe(symbol: Symbol) -> (r: Result<Probe, ProbeError>)
        ensures
            r == Self::spec_of(CliProbeType::Kretprobe, symbol),
    {
        match symbol.kind {
            SymbolKind::Function => Ok(Probe::Kretprobe(symbol)),
            SymbolKind::Event => Err(ProbeError::WrongSymbol),
        }
    }

    /// A probe on a tracepoint.
    pub fn raw_tracepoint(symbol: Symbol) -> (r: Result<Probe, ProbeError>)
        ensures
            r == Self::spec_of(CliProbeType::RawTracepoint, symbol),
    {
        match symbol.kind {
            SymbolKind::Event => Ok(Probe::RawTracepoint(symbol)),
            SymbolKind::Function => Err(ProbeError::WrongSymbol),
        }
    }

    /// A probe on a tracepoint of a program.
    pub fn usdt(probe: UsdtProbe) -> (r: Result<Probe, ProbeError>)
        ensures
            r == Ok::<Probe, ProbeError>(Probe::Usdt(probe)),
    {
        Ok(Probe::Usdt(probe))
    }
}

/// The probes of the given type on the symbols that are kept, in the order
/// of the symbols; the error of the first kept symbol that does not take
/// such a probe.
pub open spec fn spec_probes(kind: CliProbeType, symbols: Seq<Symbol>, keep: Seq<bool>) -> Result<
    Seq<Probe>,
    ProbeError,
>
    recommends
        keep.len() == symbols.len(),
    decreases symbols.len(),
{
    if symbols.len() == 0 {
        Ok(Seq::empty())
    } else {
        match spec_probes(kind, symbols.drop_last(), keep.drop_last()) {
            Ok(probes) => if keep.last() {
                match Probe::spec_of(kind, symbols.last()) {
                    Ok(probe) => Ok(probes.push(probe)),
                    Err(e) => Err(e),
                }
            } else {
                Ok(probes)
            },
            Err(e) => Err(e),
        }
    }
}

/// `keep` holds, for each symbol, what the filter said of it.
pub open spec fn filtered<F: Fn(&Symbol) -> bool>(
    filter: &F,
    symbols: Seq<Symbol>,
    keep: Seq<bool>,
) -> bool {
    &&& keep.len() == symbols.len()
    &&& forall|i: int|
        0 <= i < symbols.len() ==> call_ensures(*filter, (&#[trigger] symbols[i],), keep[i])
}

/// Turns the symbols that a probe given on the command line matches into
/// probes of its type. Symbols that `filter` turns down are dropped.
///
/// The filter is asked once for each symbol, in order, until a symbol that
/// it keeps does not take a probe of the type.
pub fn probe_from_cli<F>(kind: CliProbeType, symbols: Vec<Symbol>, filter: F) -> (r: Result<
    Vec<Probe>,
    ProbeError,
>) where F: Fn(&Symbol) -> bool
    requires
        forall|symbol: &Symbol| call_requires(filter, (symbol,)),
    ensures
        exists|n: int, keep: Seq<bool>|
            0 <= n <= symbols@.len() && #[trigger] filtered(&filter, symbols@.take(n), keep) && match r {
                Ok(probes) => n == symbols@.len() && spec_probes(kind, symbols@, keep) == Ok::<
                    Seq<Probe>,
                    ProbeError,
                >(probes@),
                Err(e) => spec_probes(kind, symbols@.take(n), keep) == Err::<
                    Seq<Probe>,
                    ProbeError,
                >(e),
            },
{
    let ghost all = symbols@;
    let ghost mut keep: Seq<bool> = Seq::empty();
    let mut probes: Vec<Probe> = Vec::new();
    for symbol in it: symbols
        invariant
            it.seq() == all,
            forall|symbol: &Symbol| call_requires(filter, (symbol,)),
            filtered(&filter, all.take(it.index()), keep),
            spec_probes(kind, all.take(it.index()), keep) == Ok::<Seq<Probe>, ProbeError>(
                probes@,
            ),
    {
        let ghost i = it.index();
        // Check if the symbol matches the filter.
        let kept = filter(&symbol);
        proof {
            let before = keep;
            keep = keep.push(kept);
            assert(all.take(i + 1).drop_last() =~= all.take(i as int));
            assert(keep.drop_last() =~= before);
            assert(filtered(&filter, all.take(i + 1), keep)) by {
                assert forall|k: int| 0 <= k < i + 1 implies call_ensures(
                    filter,
                    (&#[trigger] all.take(i + 1)[k],),
                    keep[k],
                ) by {
                    if k < i {
                        assert(all.take(i as int)[k] == all.take(i + 1)[k]);
                    }
                }
            }
        }
        if kept {
            let probe = match kind {
                CliProbeType::Kprobe => Probe::kprobe(symbol),
                CliProbeType::Kretprobe => Probe::kretprobe(symbol),
                CliProbeType::RawTracepoint => Probe::raw_tracepoint(symbol),
            };
            match probe {
                Ok(probe) => probes.push(probe),
                Err(e) => {
                    return Err(e);
                },
            }
        }
    }
    assert(all.take(all.len() as int) =~= all);
    Ok(probes)
}

} // verus!
