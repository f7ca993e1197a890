//! Validation and fan-out of send-event requests.
//!
//! A request names either one channel or a list of channels, and carries a
//! JSON payload. Dispatching first validates the request, then turns it
//! into a plan of per-channel emissions and hands each one to the socket
//! transport. Validation failures emit nothing.
use vstd::prelude::*;

use crate::transport::Transport;

use serde_json::Value;

verus! {

/// Most channels one multi-channel request may name.
pub const MAX_CHANNELS: usize = 100;

/// A request payload, with its dispatch-relevant shape settled once at
/// parse time, as either a single value or an array.
pub enum Payload {
    /// A single scalar or object value, sent as it stands.
    Scalar(Value),
    /// An array value: `whole` is the array itself, `elems` its items in
    /// order. `whole` is what a single-channel request sends; `elems` is
    /// what a multi-channel request zips with its channels.
    Array { whole: Value, elems: Vec<Value> },
}

impl Payload {
    /// The JSON value the payload stands for as a whole.
    pub open spec fn whole(self) -> Value {
        match self {
            Payload::Scalar(v) => v,
            Payload::Array { whole, .. } => whole,
        }
    }
}

/// A send-event request: exactly one of `channel` and `channels` must be
/// set for the request to be valid.
pub struct SendEventRequest {
    pub channel: Option<String>,
    pub channels: Option<Vec<String>>,
    pub payload: Payload,
}

/// Why a request was rejected; rejected requests emit nothing.
#[derive(Clone, Copy, Debug, PartialEq, Eq, Structural)]
pub enum ValidationError {
    /// Both of `channel` and `channels` were set, or neither was.
    ChannelForm,
    /// More than `MAX_CHANNELS` channels were named.
    TooManyChannels,
}

/// One planned emission: a channel name and the value to send to it.
pub struct Emission {
    pub channel: String,
    pub payload: Value,
}

impl View for Emission {
    type V = (Seq<char>, Value);

    open spec fn view(&self) -> (Seq<char>, Value) {
        (self.channel@, self.payload)
    }
}

impl SendEventRequest {
    /// Exactly one of `channel` and `channels` is set.
    pub open spec fn channel_form_ok(self) -> bool {
        self.channel is Some <==> self.channels is None
    }

    /// The request passes validation.
    pub open spec fn well_formed(self) -> bool {
        &&& self.channel_form_ok()
        &&& (self.channels matches Some(cs) ==> cs@.len() <= MAX_CHANNELS)
    }

    /// The error a rejected request is rejected with: the channel form is
    /// checked first, the channel count second.
    pub open spec fn rejection(self) -> ValidationError
        recommends
            !self.well_formed(),
    {
        if !self.channel_form_ok() {
            ValidationError::ChannelForm
        } else {
            ValidationError::TooManyChannels
        }
    }
}

/// The emissions a valid request calls for, in order.
///
/// A single-channel request sends its payload, whatever its shape, to the
/// one named channel. A multi-channel request with an array payload pairs
/// channels and array items position-wise and stops at the shorter side:
/// items or channels beyond the common length are silently dropped, the
/// relay's deliberate alignment policy. A multi-channel request with any
/// other payload sends that payload to every named channel.
pub open spec fn planned(req: SendEventRequest) -> Seq<(Seq<char>, Value)>
    recommends
        req.well_formed(),
{
    match (req.channel, req.channels) {
        (Some(c), None) => seq![(c@, req.payload.whole())],
        (None, Some(cs)) => match req.payload {
            Payload::Scalar(v) => Seq::new(cs@.len(), |i: int| (cs@[i]@, v)),
            Payload::Array { whole, elems } => Seq::new(
                if cs@.len() <= elems@.len() {
                    cs@.len()
                } else {
                    elems@.len()
                },
                |i: int| (cs@[i]@, elems@[i]),
            ),
        },
        _ => Seq::empty(),
    }
}

/// The models of a sequence of emissions.
pub open spec fn emission_models(s: Seq<Emission>) -> Seq<(Seq<char>, Value)> {
    s.map_values(|e: Emission| e@)
}

fn whole_value(p: &Payload) -> (v: Value)
    ensures
        v == p.whole(),
{
    match p {
        Payload::Scalar(v) => v.clone(),
        Payload::Array { whole, .. } => whole.clone(),
    }
}

/// Validates a request and lays out the emissions it calls for, without
/// emitting anything. Returns the planned emissions in order, or the
/// validation error, exactly as `planned` and `rejection` state.
pub fn plan_emissions(req: &SendEventRequest) -> (r: Result<Vec<Emission>, ValidationError>)
    ensures
        r is Ok <==> req.well_formed(),
        r matches Ok(plan) ==> emission_models(plan@) == planned(*req),
        r matches Err(e) ==> e == req.rejection(),
{
    match (&req.channel, &req.channels) {
        (Some(c), None) => {
            let mut plan: Vec<Emission> = Vec::new();
            plan.push(Emission { channel: c.clone(), payload: whole_value(&req.payload) });
            proof {
                assert(emission_models(plan@) =~= planned(*req));
            }
            Ok(plan)
        },
        (None, Some(cs)) => {
            if cs.len() > MAX_CHANNELS {
                return Err(ValidationError::TooManyChannels);
            }
            match &req.payload {
                Payload::Scalar(v) => {
                    let mut plan: Vec<Emission> = Vec::new();
                    let mut i: usize = 0;
                    while i < cs.len()
                        invariant
                            i <= cs@.len(),
                            plan@.len() == i,
                            forall|j: int|
                                0 <= j < i ==> plan@[j]@ == (cs@[j]@, req.payload->Scalar_0),
                            req.payload == Payload::Scalar(*v),
                        decreases cs@.len() - i,
                    {
                        plan.push(Emission { channel: cs[i].clone(), payload: v.clone() });
                        i += 1;
                    }
                    proof {
                        assert(emission_models(plan@) =~= planned(*req));
                    }
                    Ok(plan)
                },
                Payload::Array { whole: _, elems } => {
                    let n: usize = if cs.len() <= elems.len() {
                        cs.len()
                    } else {
                        elems.len()
                    };
                    let mut plan: Vec<Emission> = Vec::new();
                    let mut i: usize = 0;
                    while i < n
                        invariant
                            i <= n,
                            n == if cs@.len() <= elems@.len() {
                                cs@.len()
                            } else {
                                elems@.len()
                            },
                            plan@.len() == i,
                            forall|j: int| 0 <= j < i ==> plan@[j]@ == (cs@[j]@, elems@[j]),
                        decreases n - i,
                    {
                        plan.push(Emission { channel: cs[i].clone(), payload: elems[i].clone() });
                        i += 1;
                    }
                    proof {
                        assert(emission_models(plan@) =~= planned(*req));
                    }
                    Ok(plan)
                },
            }
        },
        _ => Err(ValidationError::ChannelForm),
    }
}

/// Validates a request and hands each planned emission to the transport,
/// in plan order. Returns how many emissions were attempted; the outcome
/// of each is best-effort and not reported (a channel with no listeners is
/// not an error). A rejected request emits nothing: validation runs to
/// completion before the first emission.
pub fn dispatch(transport: &Transport, req: &SendEventRequest) -> (r: Result<
    usize,
    ValidationError,
>)
    ensures
        r is Ok <==> req.well_formed(),
        r matches Ok(n) ==> n == planned(*req).len(),
        r matches Err(e) ==> e == req.rejection(),
{
    match plan_emissions(req) {
        Ok(plan) => {
            let mut i: usize = 0;
            while i < plan.len()
                invariant
                    i <= plan@.len(),
                decreases plan@.len() - i,
            {
                transport.emit_to_channel(plan[i].channel.as_str(), &plan[i].payload);
                i += 1;
            }
            Ok(plan.len())
        },
        Err(e) => Err(e),
    }
}

/// Every valid single-channel request plans exactly one emission, to the
/// named channel, carrying the request's payload as a whole.
pub proof fn lemma_single_channel_fanout(req: SendEventRequest, c: String)
    requires
        req.channel == Some(c),
        req.channels is None,
    ensures
        req.well_formed(),
        planned(req).len() == 1,
        planned(req)[0] == (c@, req.payload.whole()),
{
}

/// Every valid multi-channel request with an array payload plans one
/// emission per position up to the shorter of the two lengths, pairing the
/// channel and the array item at each position.
pub proof fn lemma_multi_channel_array_fanout(
    req: SendEventRequest,
    cs: Vec<String>,
    whole: Value,
    elems: Vec<Value>,
)
    requires
        req.channel is None,
        req.channels == Some(cs),
        req.payload == (Payload::Array { whole, elems }),
        cs@.len() <= MAX_CHANNELS,
    ensures
        req.well_formed(),
        planned(req).len() == if cs@.len() <= elems@.len() {
            cs@.len()
        } else {
            elems@.len()
        },
        forall|i: int| 0 <= i < planned(req).len() ==> planned(req)[i] == (cs@[i]@, elems@[i]),
{
}

/// Every valid multi-channel request with a non-array payload plans one
/// emission per named channel, each carrying the identical payload.
pub proof fn lemma_multi_channel_broadcast(req: SendEventRequest, cs: Vec<String>, v: Value)
    requires
        req.channel is None,
        req.channels == Some(cs),
        req.payload == Payload::Scalar(v),
        cs@.len() <= MAX_CHANNELS,
    ensures
        req.well_formed(),
        planned(req).len() == cs@.len(),
        forall|i: int| 0 <= i < planned(req).len() ==> planned(req)[i] == (cs@[i]@, v),
{
}

/// A request naming more than `MAX_CHANNELS` channels is rejected as a
/// validation error, so it plans and emits nothing.
pub proof fn lemma_too_many_channels_rejected(req: SendEventRequest, cs: Vec<String>)
    requires
        req.channel is None,
        req.channels == Some(cs),
        cs@.len() > MAX_CHANNELS,
    ensures
        !req.well_formed(),
        req.rejection() == ValidationError::TooManyChannels,
{
}

/// A request setting both of `channel` and `channels`, or neither, is
/// rejected as a validation error, so it plans and emits nothing.
pub proof fn lemma_channel_form_rejected(req: SendEventRequest)
    requires
        req.channel is Some <==> req.channels is Some,
    ensures
        !req.well_formed(),
        req.rejection() == ValidationError::ChannelForm,
{
}

} // verus!
