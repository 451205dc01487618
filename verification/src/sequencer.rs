//! Step sequencers: the ordered remote calls of one poll cycle.
//!
//! One profile walks a fixed chain of tags; the other walks a fixed prefix
//! ending in a count-discovery step, then a dynamically sized tail of port
//! indices in strictly descending order, inclusive of both bounds.

use vstd::prelude::*;

use crate::protocol::HttpMethod;
use crate::text::spec_dec_str;
use crate::text::u64_to_dec;
use vstd::string::StringExecFns;

verus! {

// ---------------------------------------------------------------------------
// Static chain
// ---------------------------------------------------------------------------

/// Tags of the static-chain profile.  `Wifi(true)` is the high band.
#[derive(Debug, Clone, Copy, PartialEq, Eq, Structural)]
pub enum BBoxFetchState {
    Cpu,
    Mem,
    Wan,
    Lan,
    Wifi(bool),
    End,
}

impl Default for BBoxFetchState {
    /// The first step of the chain.
    fn default() -> (r: Self)
        ensures
            r == BBoxFetchState::Cpu,
    {
        BBoxFetchState::Cpu
    }
}

pub open spec fn spec_bbox_call(t: BBoxFetchState) -> Option<(HttpMethod, Seq<char>)> {
    match t {
        BBoxFetchState::Cpu => Some((HttpMethod::Get, "/api/v1/device/cpu"@)),
        BBoxFetchState::Mem => Some((HttpMethod::Get, "/api/v1/device/mem"@)),
        BBoxFetchState::Wan => Some((HttpMethod::Get, "/api/v1/wan/ip/stats"@)),
        BBoxFetchState::Lan => Some((HttpMethod::Get, "/api/v1/lan/stats"@)),
        BBoxFetchState::Wifi(high) => if high {
            Some((HttpMethod::Get, "/api/v1/wireless/5/stats"@))
        } else {
            Some((HttpMethod::Get, "/api/v1/wireless/24/stats"@))
        },
        BBoxFetchState::End => None,
    }
}

pub open spec fn spec_bbox_next(t: BBoxFetchState) -> BBoxFetchState {
    match t {
        BBoxFetchState::Cpu => BBoxFetchState::Mem,
        BBoxFetchState::Mem => BBoxFetchState::Wan,
        BBoxFetchState::Wan => BBoxFetchState::Lan,
        BBoxFetchState::Lan => BBoxFetchState::Wifi(false),
        BBoxFetchState::Wifi(high) => if high {
            BBoxFetchState::End
        } else {
            BBoxFetchState::Wifi(true)
        },
        BBoxFetchState::End => BBoxFetchState::End,
    }
}

impl BBoxFetchState {
    /// Method and path of the remote call for the current tag; the terminal
    /// tag has none.
    pub fn call(&self) -> (r: Option<(HttpMethod, String)>)
        ensures
            match r {
                Some(p) => spec_bbox_call(*self) == Some((p.0, p.1@)),
                None => spec_bbox_call(*self) is None,
            },
    {
        match self {
            BBoxFetchState::Cpu => Some((HttpMethod::Get, "/api/v1/device/cpu".to_owned())),
            BBoxFetchState::Mem => Some((HttpMethod::Get, "/api/v1/device/mem".to_owned())),
            BBoxFetchState::Wan => Some((HttpMethod::Get, "/api/v1/wan/ip/stats".to_owned())),
            BBoxFetchState::Lan => Some((HttpMethod::Get, "/api/v1/lan/stats".to_owned())),
            BBoxFetchState::Wifi(high) => {
                if *high {
                    Some((HttpMethod::Get, "/api/v1/wireless/5/stats".to_owned()))
                } else {
                    Some((HttpMethod::Get, "/api/v1/wireless/24/stats".to_owned()))
                }
            },
            BBoxFetchState::End => None,
        }
    }

    /// The tag after this one; static transitions consult nothing else.
    pub fn next_state(&self) -> (r: BBoxFetchState)
        ensures
            r == spec_bbox_next(*self),
    {
        match self {
            BBoxFetchState::Cpu => BBoxFetchState::Mem,
            BBoxFetchState::Mem => BBoxFetchState::Wan,
            BBoxFetchState::Wan => BBoxFetchState::Lan,
            BBoxFetchState::Lan => BBoxFetchState::Wifi(false),
            BBoxFetchState::Wifi(high) => {
                if *high {
                    BBoxFetchState::End
                } else {
                    BBoxFetchState::Wifi(true)
                }
            },
            BBoxFetchState::End => BBoxFetchState::End,
        }
    }
}

/// Steps left from `t` to the terminal tag.
pub open spec fn bbox_rank(t: BBoxFetchState) -> nat {
    match t {
        BBoxFetchState::Cpu => 6,
        BBoxFetchState::Mem => 5,
        BBoxFetchState::Wan => 4,
        BBoxFetchState::Lan => 3,
        BBoxFetchState::Wifi(high) => if high {
            1
        } else {
            2
        },
        BBoxFetchState::End => 0,
    }
}

/// The call tags produced from `t` until the cycle completes.
pub open spec fn bbox_tags(t: BBoxFetchState) -> Seq<BBoxFetchState>
    decreases bbox_rank(t),
{
    if t is End {
        Seq::empty()
    } else {
        seq![t] + bbox_tags(spec_bbox_next(t))
    }
}

/// Across a full cycle the static chain produces one fixed, deterministic
/// tag sequence; response content never enters the transition function.
pub proof fn lemma_bbox_cycle_tags()
    ensures
        bbox_tags(BBoxFetchState::Cpu) =~= seq![
            BBoxFetchState::Cpu,
            BBoxFetchState::Mem,
            BBoxFetchState::Wan,
            BBoxFetchState::Lan,
            BBoxFetchState::Wifi(false),
            BBoxFetchState::Wifi(true),
        ],
{
    reveal_with_fuel(bbox_tags, 8);
}

// ---------------------------------------------------------------------------
// Dynamic-tail chain
// ---------------------------------------------------------------------------

/// Tags of the dynamic-tail profile.  `SwitchStatus` is the count-discovery
/// step; `SwitchPort(p)` carries a port index, walked downwards to 1.
#[derive(Debug, Clone, Copy, PartialEq, Eq, Structural)]
pub enum FreeboxFetchState {
    Connection,
    System,
    SwitchStatus,
    SwitchPort(u8),
    End,
}

impl Default for FreeboxFetchState {
    /// The first step of the chain.
    fn default() -> (r: Self)
        ensures
            r == FreeboxFetchState::Connection,
    {
        FreeboxFetchState::Connection
    }
}

pub open spec fn spec_freebox_call(t: FreeboxFetchState) -> Option<(HttpMethod, Seq<char>)> {
    match t {
        FreeboxFetchState::Connection => Some((HttpMethod::Get, "/api/v4/connection/"@)),
        FreeboxFetchState::System => Some((HttpMethod::Get, "/api/v4/system/"@)),
        FreeboxFetchState::SwitchStatus => Some((HttpMethod::Get, "/api/v4/switch/status/"@)),
        FreeboxFetchState::SwitchPort(p) => Some(
            (HttpMethod::Get, "/api/v4/switch/port/"@ + spec_dec_str(p as nat) + "/stats"@),
        ),
        FreeboxFetchState::End => None,
    }
}

/// The tag after `t`, given the most recently learned port count; static
/// transitions ignore the count.  A discovered count of zero ends the chain
/// right after the discovery step.
pub open spec fn spec_freebox_next(t: FreeboxFetchState, number_ports: u8) -> FreeboxFetchState {
    match t {
        FreeboxFetchState::Connection => FreeboxFetchState::System,
        FreeboxFetchState::System => FreeboxFetchState::SwitchStatus,
        FreeboxFetchState::SwitchStatus => if number_ports == 0 {
            FreeboxFetchState::End
        } else {
            FreeboxFetchState::SwitchPort(number_ports)
        },
        FreeboxFetchState::SwitchPort(p) => if p > 1 {
            FreeboxFetchState::SwitchPort((p - 1) as u8)
        } else {
            FreeboxFetchState::End
        },
        FreeboxFetchState::End => FreeboxFetchState::End,
    }
}

impl FreeboxFetchState {
    /// Method and path of the remote call for the current tag; the terminal
    /// tag has none.
    pub fn call(&self) -> (r: Option<(HttpMethod, String)>)
        ensures
            match r {
                Some(p) => spec_freebox_call(*self) == Some((p.0, p.1@)),
                None => spec_freebox_call(*self) is None,
            },
    {
        match self {
            FreeboxFetchState::Connection => Some(
                (HttpMethod::Get, "/api/v4/connection/".to_owned()),
            ),
            FreeboxFetchState::System => Some((HttpMethod::Get, "/api/v4/system/".to_owned())),
            FreeboxFetchState::SwitchStatus => Some(
                (HttpMethod::Get, "/api/v4/switch/status/".to_owned()),
            ),
            FreeboxFetchState::SwitchPort(p) => {
                let mut path = "/api/v4/switch/port/".to_owned();
                let digits = u64_to_dec(*p as u64);
                path.append(digits.as_str());
                path.append("/stats");
                Some((HttpMethod::Get, path))
            },
            FreeboxFetchState::End => None,
        }
    }

    /// The tag after this one, given the most recently learned port count.
    pub fn next_state(&self, number_ports: u8) -> (r: FreeboxFetchState)
        ensures
            r == spec_freebox_next(*self, number_ports),
    {
        match self {
            FreeboxFetchState::Connection => FreeboxFetchState::System,
            FreeboxFetchState::System => FreeboxFetchState::SwitchStatus,
            FreeboxFetchState::SwitchStatus => {
                if number_ports == 0 {
                    FreeboxFetchState::End
                } else {
                    FreeboxFetchState::SwitchPort(number_ports)
                }
            },
            FreeboxFetchState::SwitchPort(p) => {
                if *p > 1 {
                    FreeboxFetchState::SwitchPort(*p - 1)
                } else {
                    FreeboxFetchState::End
                }
            },
            FreeboxFetchState::End => FreeboxFetchState::End,
        }
    }
}

/// Steps left from `t` to the terminal tag, for any learned count.
pub open spec fn freebox_rank(t: FreeboxFetchState) -> nat {
    match t {
        FreeboxFetchState::Connection => 259,
        FreeboxFetchState::System => 258,
        FreeboxFetchState::SwitchStatus => 257,
        FreeboxFetchState::SwitchPort(p) => p as nat + 1,
        FreeboxFetchState::End => 0,
    }
}

/// The call tags produced from `t` until the cycle completes, with the port
/// count fixed at `n` from the discovery step on.
pub open spec fn freebox_tags(t: FreeboxFetchState, n: u8) -> Seq<FreeboxFetchState>
    decreases freebox_rank(t),
{
    if t is End {
        Seq::empty()
    } else {
        seq![t] + freebox_tags(spec_freebox_next(t, n), n)
    }
}

proof fn lemma_freebox_port_tags(p: u8, n: u8)
    requires
        p >= 1,
    ensures
        freebox_tags(FreeboxFetchState::SwitchPort(p), n).len() == p as int,
        forall|i: int|
            0 <= i < p as int ==> freebox_tags(FreeboxFetchState::SwitchPort(p), n)[i]
                == FreeboxFetchState::SwitchPort((p - i) as u8),
    decreases p,
{
    if p > 1 {
        lemma_freebox_port_tags((p - 1) as u8, n);
        assert(freebox_tags(FreeboxFetchState::SwitchPort(p), n) =~= seq![
            FreeboxFetchState::SwitchPort(p),
        ] + freebox_tags(FreeboxFetchState::SwitchPort((p - 1) as u8), n));
    } else {
        assert(freebox_tags(FreeboxFetchState::End, n) =~= Seq::empty());
        assert(freebox_tags(FreeboxFetchState::SwitchPort(p), n) =~= seq![
            FreeboxFetchState::SwitchPort(p),
        ]);
    }
}

/// If the discovery step reports count `n`, the tags that follow it are
/// exactly the port indices n, n-1, …, 1 and then the terminal tag, for any
/// n; a count of zero makes the chain terminal immediately.
pub proof fn lemma_freebox_dynamic_tail(n: u8)
    ensures
        freebox_tags(spec_freebox_next(FreeboxFetchState::SwitchStatus, n), n).len() == n as int,
        forall|i: int|
            0 <= i < n as int ==> freebox_tags(
                spec_freebox_next(FreeboxFetchState::SwitchStatus, n),
                n,
            )[i] == FreeboxFetchState::SwitchPort((n - i) as u8),
{
    if n >= 1 {
        lemma_freebox_port_tags(n, n);
    }
}

/// The full dynamic-tail cycle: the fixed prefix, then the descending port
/// indices learned at the discovery step.
pub proof fn lemma_freebox_cycle_tags(n: u8)
    ensures
        freebox_tags(FreeboxFetchState::Connection, n) =~= seq![
            FreeboxFetchState::Connection,
            FreeboxFetchState::System,
            FreeboxFetchState::SwitchStatus,
        ] + freebox_tags(spec_freebox_next(FreeboxFetchState::SwitchStatus, n), n),
{
    reveal_with_fuel(freebox_tags, 4);
}

} // verus!
