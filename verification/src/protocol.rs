//! The host-facing protocol abstraction.
//!
//! A protocol instance represents a single participant. The host drives it by
//! alternating [`Protocol::poke`], which yields the next [`Action`], and
//! [`Protocol::message`], which delivers bytes received from another party.

use vstd::prelude::*;
use crate::scalars::{Scalar, scalar_from_u64};

verus! {

/// The bytes making up a message; their structure is handled internally.
pub type MessageData = Vec<u8>;

/// A participant in a protocol, identified by a 32-bit number.
#[derive(Debug, Clone, Copy, PartialEq, Eq, PartialOrd, Ord, Hash, Structural)]
pub struct Participant(pub u32);

impl Participant {
    /// The identifier behind this participant.
    pub fn id(&self) -> (r: u32)
        ensures
            r == self.0,
    {
        self.0
    }

    /// The identifier as little-endian bytes.
    pub fn bytes(&self) -> (r: Vec<u8>)
        ensures
            r@ == u32_le_bytes(self.0),
    {
        let mut out: Vec<u8> = Vec::new();
        out.push((self.0 & 0xff) as u8);
        out.push(((self.0 >> 8) & 0xff) as u8);
        out.push(((self.0 >> 16) & 0xff) as u8);
        out.push(((self.0 >> 24) & 0xff) as u8);
        proof {
            assert(out@ =~= u32_le_bytes(self.0));
        }
        out
    }

    /// The nonzero scalar `id + 1` standing for this participant.
    pub fn scalar(&self) -> (r: Scalar)
        ensures
            r.value() == self.0 + 1,
    {
        scalar_from_u64(self.0 as u64 + 1)
    }
}

/// The little-endian byte decomposition of a 32-bit value.
pub open spec fn u32_le_bytes(x: u32) -> Seq<u8> {
    seq![
        (x & 0xff) as u8,
        ((x >> 8) & 0xff) as u8,
        ((x >> 16) & 0xff) as u8,
        ((x >> 24) & 0xff) as u8,
    ]
}

impl From<u32> for Participant {
    fn from(x: u32) -> (r: Self) {
        Participant(x)
    }
}

impl vstd::std_specs::convert::FromSpecImpl<u32> for Participant {
    open spec fn obeys_from_spec() -> bool {
        true
    }

    open spec fn from_spec(x: u32) -> Self {
        Participant(x)
    }
}

impl From<Participant> for u32 {
    fn from(p: Participant) -> (r: Self) {
        p.0
    }
}

impl vstd::std_specs::convert::FromSpecImpl<Participant> for u32 {
    open spec fn obeys_from_spec() -> bool {
        true
    }

    open spec fn from_spec(p: Participant) -> Self {
        p.0
    }
}

/// An error occurring while a protocol runs.
#[derive(Debug, Clone, PartialEq, Eq)]
pub enum ProtocolError {
    /// Some cryptographic check in the protocol failed.
    AssertionFailed(String),
    /// Some other failure, such as an undecodable message.
    Other(String),
}

impl ProtocolError {
    /// A human-readable description of this error.
    pub fn describe(&self) -> String {
        match self {
            ProtocolError::AssertionFailed(s) => s.clone(),
            ProtocolError::Other(s) => s.clone(),
        }
    }
}

/// An error raised when a protocol is initialized with bad arguments.
#[derive(Debug, Clone, PartialEq, Eq)]
pub enum InitializationError {
    BadParameters(String),
}

impl InitializationError {
    /// A human-readable description of this error.
    pub fn describe(&self) -> String {
        match self {
            InitializationError::BadParameters(s) => s.clone(),
        }
    }
}

/// A message leaving a protocol instance: either a broadcast or a private
/// message for one participant.
#[derive(Debug, Clone)]
pub enum Message {
    Many(MessageData),
    Private(Participant, MessageData),
}

/// The next thing a protocol instance asks its host to do.
#[derive(Debug, Clone)]
pub enum Action<T> {
    /// Nothing to do until a new message arrives.
    Wait,
    /// Send a message to every other participant.
    SendMany(MessageData),
    /// Send a message privately to one participant.
    SendPrivate(Participant, MessageData),
    /// The protocol has finished with this value.
    Return(T),
}

/// A single participant's view of a protocol, driven by messages.
pub trait Protocol {
    type Output;

    /// Ask the protocol for its next action.
    fn poke(&mut self) -> Result<Action<Self::Output>, ProtocolError>;

    /// Deliver a message received from another participant.
    fn message(&mut self, from: Participant, data: MessageData);
}

/// How many times the synchronous drivers poke the participants before
/// concluding that the protocols have deadlocked.
pub const RUN_FUEL: u64 = 0x100000;

/// The outputs name the input participants injectively: each output's
/// participant is a distinct input's, via the source indices `srcs`.
pub open spec fn sourced_from(srcs: Seq<int>, outs: Seq<Participant>, ins: Seq<Participant>)
    -> bool {
    &&& srcs.len() == outs.len()
    &&& forall|k: int| 0 <= k < srcs.len()
        ==> 0 <= #[trigger] srcs[k] < ins.len() && outs[k] == ins[srcs[k]]
    &&& forall|k1: int, k2: int| 0 <= k1 < k2 < srcs.len() ==> srcs[k1] != srcs[k2]
}

/// One output per participant: some injection maps the outputs onto
/// distinct inputs.
pub open spec fn one_output_each(outs: Seq<Participant>, ins: Seq<Participant>) -> bool {
    exists|srcs: Seq<int>| #[trigger] sourced_from(srcs, outs, ins)
}

/// Run a set of protocol instances against each other, synchronously.
///
/// Every instance must have the same concrete type; messages are moved
/// between the instances — a broadcast to every other instance, a private
/// send to its addressee alone — until each of them has returned a value:
/// the result holds exactly one output per instance. The first error any
/// `poke` reports is returned as the overall error, and a bounded fuel
/// budget turns a deadlock or livelock into an error rather than a hang.
/// This is a testing utility: real deployments move the messages over a
/// network.
pub fn run_protocol<P: Protocol>(
    mut ps: Vec<(Participant, P)>,
) -> (r: Result<Vec<(Participant, P::Output)>, ProtocolError>)
    ensures
        r matches Ok(out) ==> out.len() == ps.len()
            && one_output_each(
                out@.map_values(|t: (Participant, P::Output)| t.0),
                ps@.map_values(|t: (Participant, P)| t.0)),
{
    let size = ps.len();
    let ghost ins = ps@.map_values(|t: (Participant, P)| t.0);
    let mut out: Vec<(Participant, P::Output)> = Vec::new();
    let mut returned: Vec<bool> = Vec::new();
    let mut k0: usize = 0;
    while k0 < size
        invariant
            k0 <= size,
            returned@.len() == k0,
            forall|k: int| 0 <= k < k0 ==> !returned@[k],
        decreases size - k0,
    {
        returned.push(false);
        k0 = k0 + 1;
    }
    let ghost mut srcs: Seq<int> = Seq::empty();
    proof {
        assert(sourced_from(srcs,
            out@.map_values(|t: (Participant, P::Output)| t.0), ins));
    }
    let mut fuel: u64 = RUN_FUEL;
    while out.len() < size && fuel > 0
        invariant
            out.len() <= size,
            ps.len() == size,
            returned@.len() == size,
            ins == ps@.map_values(|t: (Participant, P)| t.0),
            sourced_from(srcs, out@.map_values(|t: (Participant, P::Output)| t.0), ins),
            forall|k: int| 0 <= k < srcs.len() ==> returned@[#[trigger] srcs[k]],
        decreases fuel,
    {
        fuel = fuel - 1;
        let mut i: usize = 0;
        while i < size
            invariant
                ps.len() == size,
                out.len() <= size,
                returned@.len() == size,
                ins == ps@.map_values(|t: (Participant, P)| t.0),
                sourced_from(srcs,
                    out@.map_values(|t: (Participant, P::Output)| t.0), ins),
                forall|k: int| 0 <= k < srcs.len() ==> returned@[#[trigger] srcs[k]],
            decreases size - i,
        {
            let mut inner_fuel: u64 = RUN_FUEL;
            loop
                invariant
                    i < size,
                    ps.len() == size,
                    out.len() <= size,
                    returned@.len() == size,
                    ins == ps@.map_values(|t: (Participant, P)| t.0),
                    sourced_from(srcs,
                        out@.map_values(|t: (Participant, P::Output)| t.0), ins),
                    forall|k: int| 0 <= k < srcs.len() ==> returned@[#[trigger] srcs[k]],
                decreases inner_fuel,
            {
                if inner_fuel == 0 {
                    return Err(ProtocolError::Other(String::from_str(
                        "protocol ran out of fuel",
                    )));
                }
                inner_fuel = inner_fuel - 1;
                let ghost pre_ps = ps@;
                let action = ps[i].1.poke()?;
                proof {
                    assert(ps@.map_values(|t: (Participant, P)| t.0)
                        =~= pre_ps.map_values(|t: (Participant, P)| t.0));
                }
                match action {
                    Action::Wait => {
                        break;
                    }
                    Action::SendMany(m) => {
                        let from = ps[i].0;
                        let mut j: usize = 0;
                        while j < size
                            invariant
                                ps.len() == size,
                                i < size,
                                out.len() <= size,
                                returned@.len() == size,
                                ins == ps@.map_values(|t: (Participant, P)| t.0),
                                sourced_from(srcs, out@.map_values(
                                    |t: (Participant, P::Output)| t.0), ins),
                                forall|k: int| 0 <= k < srcs.len()
                                    ==> returned@[#[trigger] srcs[k]],
                            decreases size - j,
                        {
                            if j != i {
                                let data = clone_bytes(&m);
                                let ghost pre = ps@;
                                ps[j].1.message(from, data);
                                proof {
                                    assert(ps@.map_values(|t: (Participant, P)| t.0)
                                        =~= pre.map_values(|t: (Participant, P)| t.0));
                                }
                            }
                            j = j + 1;
                        }
                    }
                    Action::SendPrivate(to, m) => {
                        let from = ps[i].0;
                        let mut j: usize = 0;
                        while j < size
                            invariant
                                ps.len() == size,
                                i < size,
                                out.len() <= size,
                                returned@.len() == size,
                                ins == ps@.map_values(|t: (Participant, P)| t.0),
                                sourced_from(srcs, out@.map_values(
                                    |t: (Participant, P::Output)| t.0), ins),
                                forall|k: int| 0 <= k < srcs.len()
                                    ==> returned@[#[trigger] srcs[k]],
                            decreases size - j,
                        {
                            if ps[j].0 == to {
                                let ghost pre = ps@;
                                ps[j].1.message(from, m);
                                proof {
                                    assert(ps@.map_values(|t: (Participant, P)| t.0)
                                        =~= pre.map_values(|t: (Participant, P)| t.0));
                                }
                                break;
                            }
                            j = j + 1;
                        }
                    }
                    Action::Return(v) => {
                        // Take at most one output per instance; a machine
                        // that returns again after completing is ignored,
                        // as a completed machine yields only waits.
                        if out.len() < size && !returned[i] {
                            let ghost pre_outs = out@.map_values(
                                |t: (Participant, P::Output)| t.0);
                            let from = ps[i].0;
                            returned.set(i, true);
                            out.push((from, v));
                            proof {
                                srcs = srcs.push(i as int);
                                let outs = out@.map_values(
                                    |t: (Participant, P::Output)| t.0);
                                assert(outs.drop_last() =~= pre_outs);
                                assert(outs.last() == ins[i as int]);
                                assert(sourced_from(srcs, outs, ins));
                            }
                        }
                        break;
                    }
                }
            }
            i = i + 1;
        }
    }
    if out.len() == size {
        proof {
            assert(one_output_each(
                out@.map_values(|t: (Participant, P::Output)| t.0), ins));
        }
        Ok(out)
    } else {
        Err(ProtocolError::Other(String::from_str(
            "protocol deadlocked without completing",
        )))
    }
}

/// Run a protocol between exactly two parties, whose output types may differ.
pub fn run_two_party_protocol<P0: Protocol, P1: Protocol>(
    p0: Participant,
    p1: Participant,
    prot0: &mut P0,
    prot1: &mut P1,
) -> (r: Result<(P0::Output, P1::Output), ProtocolError>)
{
    let mut active0 = true;
    let mut out0: Option<P0::Output> = None;
    let mut out1: Option<P1::Output> = None;
    let mut fuel: u64 = RUN_FUEL;

    while out0.is_none() || out1.is_none()
        decreases fuel,
    {
        if fuel == 0 {
            return Err(ProtocolError::Other(String::from_str(
                "protocol ran out of fuel",
            )));
        }
        fuel = fuel - 1;
        if active0 {
            let action = prot0.poke()?;
            match action {
                Action::Wait => {
                    active0 = false;
                }
                Action::SendMany(m) => {
                    prot1.message(p0, m);
                }
                Action::SendPrivate(to, m) => {
                    if to == p1 {
                        prot1.message(p0, m);
                    }
                }
                Action::Return(v) => {
                    out0 = Some(v);
                    active0 = false;
                }
            }
        } else {
            let action = prot1.poke()?;
            match action {
                Action::Wait => {
                    active0 = true;
                }
                Action::SendMany(m) => {
                    prot0.message(p1, m);
                }
                Action::SendPrivate(to, m) => {
                    if to == p0 {
                        prot0.message(p1, m);
                    }
                }
                Action::Return(v) => {
                    out1 = Some(v);
                    active0 = true;
                }
            }
        }
    }

    match (out0, out1) {
        (Some(a), Some(b)) => Ok((a, b)),
        _ => Err(ProtocolError::Other(String::from_str(
            "two party protocol did not complete",
        ))),
    }
}

/// Copy a byte vector.
pub fn clone_bytes(v: &Vec<u8>) -> (r: Vec<u8>)
    ensures
        r@ == v@,
{
    let mut out: Vec<u8> = Vec::new();
    let mut i: usize = 0;
    while i < v.len()
        invariant
            i <= v.len(),
            out@ == v@.subrange(0, i as int),
        decreases v.len() - i,
    {
        out.push(v[i]);
        proof {
            assert(out@ =~= v@.subrange(0, i + 1 as int));
        }
        i = i + 1;
    }
    proof {
        assert(out@ =~= v@);
    }
    out
}

} // verus!
