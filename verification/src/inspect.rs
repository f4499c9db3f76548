//! Looking into a symbol: which of its parameters hold the values that
//! probes collect.

use vstd::prelude::*;

use crate::probe::Symbol;
use crate::text::same_text;

verus! {

/// Why a symbol could not be inspected.
#[derive(Debug, Clone, Copy, PartialEq, Eq, Structural)]
pub enum InspectError {
    /// The kernel has no type information.
    NoBtf,
    /// A parameter stands at an offset that a signed byte cannot hold.
    OffsetOutOfRange,
}

/// No parameter: the offset that stands for none.
pub const ABSENT: i8 = -1;

/// Where known parameters stand among the parameters of a symbol, `-1`
/// for each that the symbol does not have.
#[derive(Debug, Clone, Copy, PartialEq, Eq, Structural)]
pub struct ProbeOffsets {
    pub sk_buff: i8,
    pub skb_drop_reason: i8,
    pub net_device: i8,
    pub net: i8,
    pub nft_pktinfo: i8,
    pub nft_traceinfo: i8,
}

/// What a probe is told of the symbol it is attached to.
#[derive(Debug, Clone, Copy, PartialEq, Eq, Structural)]
pub struct ProbeConfig {
    pub offsets: ProbeOffsets,
}

impl ProbeOffsets {
    /// No known parameter at all.
    pub open spec fn none() -> ProbeOffsets {
        ProbeOffsets {
            sk_buff: ABSENT,
            skb_drop_reason: ABSENT,
            net_device: ABSENT,
            net: ABSENT,
            nft_pktinfo: ABSENT,
            nft_traceinfo: ABSENT,
        }
    }
}

impl Default for ProbeOffsets {
    fn default() -> (r: Self)
        ensures
            r == ProbeOffsets::none(),
    {
        ProbeOffsets {
            sk_buff: ABSENT,
            skb_drop_reason: ABSENT,
            net_device: ABSENT,
            net: ABSENT,
            nft_pktinfo: ABSENT,
            nft_traceinfo: ABSENT,
        }
    }
}

impl Default for ProbeConfig {
    fn default() -> (r: Self)
        ensures
            r.offsets == ProbeOffsets::none(),
    {
        ProbeConfig { offsets: ProbeOffsets::default() }
    }
}

/// Where the first parameter of type `of_type` stands; the number of
/// parameters where there is none.
pub open spec fn position(parameters: Seq<String>, of_type: Seq<char>) -> int
    decreases parameters.len(),
{
    if parameters.len() == 0 {
        0
    } else if parameters[0]@ == of_type {
        0
    } else {
        1 + position(parameters.drop_first(), of_type)
    }
}

/// A position before which no parameter has the type, and which holds one
/// that has or ends the parameters, is the position of the type.
proof fn lemma_position(parameters: Seq<String>, of_type: Seq<char>, at: int)
    requires
        0 <= at <= parameters.len(),
        forall|k: int| 0 <= k < at ==> (#[trigger] parameters[k])@ != of_type,
        at < parameters.len() ==> parameters[at]@ == of_type,
    ensures
        position(parameters, of_type) == at,
    decreases at,
{
    if at > 0 {
        let rest = parameters.drop_first();
        assert forall|k: int| 0 <= k < at - 1 implies (#[trigger] rest[k])@ != of_type by {
            assert(rest[k] == parameters[k + 1]);
        }
        lemma_position(rest, of_type, at - 1);
    }
}

/// The offset of the first parameter of type `of_type`, if there is one.
pub open spec fn offset_in(parameters: Seq<String>, of_type: Seq<char>) -> Option<int> {
    let at = position(parameters, of_type);
    if at < parameters.len() {
        Some(at)
    } else {
        None
    }
}

/// The first offset that is there.
pub open spec fn or_else(first: Option<int>, second: Option<int>) -> Option<int> {
    if first is Some {
        first
    } else {
        second
    }
}

/// The offset of the reason why a packet was dropped: of the first kind of
/// reason that is among the parameters, the kinds taken in a fixed order.
pub open spec fn drop_reason_in(parameters: Seq<String>) -> Option<int> {
    or_else(
        offset_in(parameters, "enum skb_drop_reason"@),
        or_else(
            offset_in(parameters, "enum mac80211_drop_reason"@),
            offset_in(parameters, "enum ovs_drop_reason"@),
        ),
    )
}

/// An offset as a probe is told it: `-1` for none.
pub open spec fn told(offset: Option<int>) -> int {
    match offset {
        Some(at) => at,
        None => -1,
    }
}

/// An offset is none, or fits a signed byte.
pub open spec fn fits(offset: Option<int>) -> bool {
    match offset {
        Some(at) => at <= i8::MAX,
        None => true,
    }
}

/// The description of a symbol with the given parameters.
pub open spec fn config_of(parameters: Seq<String>) -> ProbeConfig {
    ProbeConfig {
        offsets: ProbeOffsets {
            sk_buff: told(offset_in(parameters, "struct sk_buff *"@)) as i8,
            skb_drop_reason: told(drop_reason_in(parameters)) as i8,
            net_device: told(offset_in(parameters, "struct net_device *"@)) as i8,
            net: told(offset_in(parameters, "struct net *"@)) as i8,
            nft_pktinfo: told(offset_in(parameters, "struct nft_pktinfo *"@)) as i8,
            nft_traceinfo: told(offset_in(parameters, "struct nft_traceinfo *"@)) as i8,
        },
    }
}

/// Every offset of the description fits a signed byte.
pub open spec fn all_fit(parameters: Seq<String>) -> bool {
    &&& fits(offset_in(parameters, "struct sk_buff *"@))
    &&& fits(drop_reason_in(parameters))
    &&& fits(offset_in(parameters, "struct net_device *"@))
    &&& fits(offset_in(parameters, "struct net *"@))
    &&& fits(offset_in(parameters, "struct nft_pktinfo *"@))
    &&& fits(offset_in(parameters, "struct nft_traceinfo *"@))
}

impl Symbol {
    /// The parameter types, where the kernel has type information.
    pub open spec fn types(&self) -> Option<Seq<String>> {
        match self.parameters {
            Some(parameters) => Some(parameters@),
            None => None,
        }
    }

    /// The offset of the first parameter of type `of_type`. A symbol
    /// without such a parameter has no offset; that is no error.
    pub fn parameter_offset(&self, of_type: &str) -> (r: Result<Option<usize>, InspectError>)
        ensures
            match self.types() {
                Some(parameters) => match r {
                    Ok(Some(at)) => offset_in(parameters, of_type@) == Some(at as int),
                    Ok(None) => offset_in(parameters, of_type@) is None,
                    Err(_) => false,
                },
                None => r == Err::<Option<usize>, InspectError>(InspectError::NoBtf),
            },
    {
        let parameters = match &self.parameters {
            Some(parameters) => parameters,
            None => {
                return Err(InspectError::NoBtf);
            },
        };
        let mut at: usize = 0;
        while at < parameters.len()
            invariant
                at <= parameters.len(),
                self.types() == Some(parameters@),
                forall|k: int| 0 <= k < at ==> (#[trigger] parameters@[k])@ != of_type@,
            decreases parameters.len() - at,
        {
            if same_text(parameters[at].as_str(), of_type) {
                proof {
                    lemma_position(parameters@, of_type@, at as int);
                }
                return Ok(Some(at));
            }
            at += 1;
        }
        proof {
            lemma_position(parameters@, of_type@, at as int);
        }
        Ok(None)
    }
}

/// An offset as a signed byte, where it fits one.
fn narrow(offset: Option<usize>) -> (r: Result<i8, InspectError>)
    ensures
        match r {
            Ok(byte) => match offset {
                Some(at) => at <= i8::MAX && byte == at,
                None => byte == -1,
            },
            Err(e) => offset matches Some(at) && at > i8::MAX && e
                == InspectError::OffsetOutOfRange,
        },
{
    match offset {
        Some(at) => if at <= 127 {
            Ok(at as i8)
        } else {
            Err(InspectError::OffsetOutOfRange)
        },
        None => Ok(ABSENT),
    }
}

/// Find the offset of drop reason enums. We do not distinguish them as they're
/// part of the same (virtual) enum.
pub fn drop_reason_offset(symbol: &Symbol) -> (r: Result<Option<usize>, InspectError>)
    ensures
        match symbol.types() {
            Some(parameters) => match r {
                Ok(Some(at)) => drop_reason_in(parameters) == Some(at as int),
                Ok(None) => drop_reason_in(parameters) is None,
                Err(_) => false,
            },
            None => r == Err::<Option<usize>, InspectError>(InspectError::NoBtf),
        },
{
    match symbol.parameter_offset("enum skb_drop_reason") {
        Ok(Some(offset)) => {
            return Ok(Some(offset));
        },
        Ok(None) => {},
        Err(e) => {
            return Err(e);
        },
    }
    match symbol.parameter_offset("enum mac80211_drop_reason") {
        Ok(Some(offset)) => {
            return Ok(Some(offset));
        },
        Ok(None) => {},
        Err(e) => {
            return Err(e);
        },
    }
    symbol.parameter_offset("enum ovs_drop_reason")
}

/// Inspect a target using BTF and fill its description.
pub fn inspect_symbol(symbol: &Symbol) -> (r: Result<ProbeConfig, InspectError>)
    ensures
        match symbol.types() {
            Some(parameters) => if all_fit(parameters) {
                r == Ok::<ProbeConfig, InspectError>(config_of(parameters))
            } else {
                r == Err::<ProbeConfig, InspectError>(InspectError::OffsetOutOfRange)
            },
            None => r == Err::<ProbeConfig, InspectError>(InspectError::NoBtf),
        },
{
    // Look for known parameter types.
    let sk_buff = match symbol.parameter_offset("struct sk_buff *") {
        Ok(offset) => offset,
        Err(e) => {
            return Err(e);
        },
    };
    let skb_drop_reason = match drop_reason_offset(symbol) {
        Ok(offset) => offset,
        Err(e) => {
            return Err(e);
        },
    };
    let net_device = match symbol.parameter_offset("struct net_device *") {
        Ok(offset) => offset,
        Err(e) => {
            return Err(e);
        },
    };
    let net = match symbol.parameter_offset("struct net *") {
        Ok(offset) => offset,
        Err(e) => {
            return Err(e);
        },
    };
    let nft_pktinfo = match symbol.parameter_offset("struct nft_pktinfo *") {
        Ok(offset) => offset,
        Err(e) => {
            return Err(e);
        },
    };
    let nft_traceinfo = match symbol.parameter_offset("struct nft_traceinfo *") {
        Ok(offset) => offset,
        Err(e) => {
            return Err(e);
        },
    };

    let mut cfg = ProbeConfig::default();
    cfg.offsets.sk_buff = match narrow(sk_buff) {
        Ok(offset) => offset,
        Err(e) => {
            return Err(e);
        },
    };
    cfg.offsets.skb_drop_reason = match narrow(skb_drop_reason) {
        Ok(offset) => offset,
        Err(e) => {
            return Err(e);
        },
    };
    cfg.offsets.net_device = match narrow(net_device) {
        Ok(offset) => offset,
        Err(e) => {
            return Err(e);
        },
    };
    cfg.offsets.net = match narrow(net) {
        Ok(offset) => offset,
        Err(e) => {
            return Err(e);
        },
    };
    cfg.offsets.nft_pktinfo = match narrow(nft_pktinfo) {
        Ok(offset) => offset,
        Err(e) => {
            return Err(e);
        },
    };
    cfg.offsets.nft_traceinfo = match narrow(nft_traceinfo) {
        Ok(offset) => offset,
        Err(e) => {
            return Err(e);
        },
    };
    Ok(cfg)
}

} // verus!
