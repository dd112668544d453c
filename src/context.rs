//! The decisions taken around one evaluation of a ruleset by a [`Context`].
use vstd::prelude::*;

use crate::object::{
    entry_for, first_with_key, lemma_get_is_entry_for, AsRawMutObject, Keyed, TypedWafObject, Value,
    WafArray, WafMap, WafObject, WafOwned,
};

verus! {

/// The engine's status code for an evaluation that produced no match.
pub const STATUS_OK: i32 = 0;

/// The engine's status code for an evaluation in which some rules matched.
pub const STATUS_MATCH: i32 = 1;

/// The engine's status code for an internal error.
pub const STATUS_ERR_INTERNAL: i32 = -3;

/// The engine's status code for an invalid object.
pub const STATUS_ERR_INVALID_OBJECT: i32 = -2;

/// The engine's status code for an invalid argument.
pub const STATUS_ERR_INVALID_ARGUMENT: i32 = -1;

/// True for the status codes the engine may return from an evaluation.
pub open spec fn known_status(status: i32) -> bool {
    status == STATUS_OK || status == STATUS_MATCH || status == STATUS_ERR_INTERNAL
        || status == STATUS_ERR_INVALID_OBJECT || status == STATUS_ERR_INVALID_ARGUMENT
}

/// Returns true for the status codes the engine may return from an evaluation.
pub fn known_status_code(status: i32) -> (r: bool)
    ensures
        r == known_status(status),
{
    status == STATUS_OK || status == STATUS_MATCH || status == STATUS_ERR_INTERNAL
        || status == STATUS_ERR_INVALID_OBJECT || status == STATUS_ERR_INVALID_ARGUMENT
}

/// True when an evaluation that ended with `status` leaves its persistent data with the
/// context: after a match, no match, or an internal error.
pub open spec fn retains_spec(status: i32) -> bool {
    status == STATUS_OK || status == STATUS_MATCH || status == STATUS_ERR_INTERNAL
}

/// Returns true when an evaluation that ended with `status` leaves its persistent data with
/// the context, which must then keep it alive.
pub fn retains_persistent_data(status: i32) -> (r: bool)
    ensures
        r == retains_spec(status),
{
    status == STATUS_OK || status == STATUS_MATCH || status == STATUS_ERR_INTERNAL
}

/// The per-request evaluation state of a WAF instance.
///
/// A [`Context`] keeps every piece of persistent data it was handed for as long as it lives, as
/// the engine may refer to it in later evaluations.
pub struct Context {
    keepalive: Vec<WafMap>,
}

/// The result of an evaluation.
pub enum RunResult {
    /// The WAF successfully processed the request, and produced no match.
    NoMatch(RunOutput),
    /// The WAF successfully processed the request and some event rules matched some of the
    /// supplied address data.
    Match(RunOutput),
}

/// The error that can occur during an evaluation.
#[non_exhaustive]
#[derive(Debug, PartialEq, Eq, Structural)]
pub enum RunError {
    /// The WAF encountered an internal error while processing the request.
    InternalError,
    /// The WAF encountered an invalid object while processing the request.
    InvalidObject,
    /// The WAF encountered an invalid argument while processing the request.
    InvalidArgument,
}

impl RunError {
    /// Returns a description of this error.
    pub fn message(&self) -> (r: &'static str)
        ensures
            r@ == (match *self {
                RunError::InternalError => "The WAF encountered an internal error"@,
                RunError::InvalidObject => "The WAF encountered an invalid object"@,
                RunError::InvalidArgument => "The WAF encountered an invalid argument"@,
            }),
    {
        match self {
            RunError::InternalError => "The WAF encountered an internal error",
            RunError::InvalidObject => "The WAF encountered an invalid object",
            RunError::InvalidArgument => "The WAF encountered an invalid argument",
        }
    }
}

/// The data produced by an evaluation.
pub struct RunOutput {
    data: WafOwned<WafMap>,
}

/// The boolean stored under `key` in a result map, `false` when there is none.
pub open spec fn flag_of(d: Seq<(Seq<u8>, Value)>, key: Seq<u8>) -> bool {
    match entry_for(d, key) {
        Some(Value::Bool(b)) => b,
        _ => false,
    }
}

/// The unsigned number stored under `key` in a result map, zero when there is none.
pub open spec fn count_of(d: Seq<(Seq<u8>, Value)>, key: Seq<u8>) -> u64 {
    match entry_for(d, key) {
        Some(Value::Unsigned(n)) => n,
        _ => 0,
    }
}

/// The bytes of `timeout`.
pub open spec fn timeout_key() -> Seq<u8> {
    seq![116u8, 105, 109, 101, 111, 117, 116]
}

/// The bytes of `keep`.
pub open spec fn keep_key() -> Seq<u8> {
    seq![107u8, 101, 101, 112]
}

/// The bytes of `duration`.
pub open spec fn duration_key() -> Seq<u8> {
    seq![100u8, 117, 114, 97, 116, 105, 111, 110]
}

/// The bytes of `events`.
pub open spec fn events_key() -> Seq<u8> {
    seq![101u8, 118, 101, 110, 116, 115]
}

/// The bytes of `actions`.
pub open spec fn actions_key() -> Seq<u8> {
    seq![97u8, 99, 116, 105, 111, 110, 115]
}

/// The bytes of `attributes`.
pub open spec fn attributes_key() -> Seq<u8> {
    seq![97u8, 116, 116, 114, 105, 98, 117, 116, 101, 115]
}

/// The duration of a number of nanoseconds, as `Duration::from_nanos` builds it.
pub uninterp spec fn duration_of_nanos(nanos: u64) -> core::time::Duration;

/// Relies on `Duration::from_nanos`: the duration of the given number of nanoseconds, which
/// depends on that number alone.
#[verifier::external_body]
fn duration_from_nanos(nanos: u64) -> (r: core::time::Duration)
    ensures
        r == duration_of_nanos(nanos),
{
    core::time::Duration::from_nanos(nanos)
}

/// Looks up the entry stored under `key` in a result map.
fn lookup<'a>(data: &'a WafMap, key: Vec<u8>) -> (r: Option<&'a Keyed<WafObject>>)
    ensures
        r is None ==> entry_for(data.value_spec()->Dict_0, key@) is None,
        r is Some ==> entry_for(data.value_spec()->Dict_0, key@) == Some(r->0.value_spec())
            && r->0.key_spec() == key@,
{
    let r = data.get(key.as_slice());
    proof {
        let d = data.value_spec()->Dict_0;
        if r is Some {
            let i = choose|i: int| first_with_key(d, key@, i) && (r->0.key_spec(), r->0.value_spec()) == d[i];
            lemma_get_is_entry_for(d, key@, i);
        } else {
            assert(!exists|i: int| first_with_key(d, key@, i));
        }
    }
    r
}

impl RunOutput {
    /// Wraps the result map an evaluation produced.
    pub fn new(data: WafOwned<WafMap>) -> (r: Self)
        ensures
            r.data_spec() == data.value_spec()->Dict_0,
    {
        RunOutput { data }
    }

    /// The entries of the result map.
    pub closed spec fn data_spec(&self) -> Seq<(Seq<u8>, Value)> {
        self.data.value_spec()->Dict_0
    }

    /// Returns true if the WAF did not have enough time to process all the address data that
    /// was being evaluated.
    pub fn timeout(&self) -> (r: bool)
        ensures
            r == flag_of(self.data_spec(), timeout_key()),
    {
        self.flag(vec![116u8, 105, 109, 101, 111, 117, 116])
    }

    /// Returns true if the WAF determined the trace for this request should have its priority
    /// overridden to ensure it is not dropped by the sampler.
    pub fn keep(&self) -> (r: bool)
        ensures
            r == flag_of(self.data_spec(), keep_key()),
    {
        self.flag(vec![107u8, 101, 101, 112])
    }

    fn flag(&self, key: Vec<u8>) -> (r: bool)
        ensures
            r == flag_of(self.data_spec(), key@),
    {
        match lookup(self.data.inner(), key) {
            Some(entry) => match entry.inner().to_bool() {
                Some(b) => b,
                None => false,
            },
            None => false,
        }
    }

    /// Returns the total time spent processing the request, in nanoseconds.
    pub fn duration_nanos(&self) -> (r: u64)
        ensures
            r == count_of(self.data_spec(), duration_key()),
    {
        match lookup(self.data.inner(), vec![100u8, 117, 114, 97, 116, 105, 111, 110]) {
            Some(entry) => match entry.inner().to_u64() {
                Some(n) => n,
                None => 0,
            },
            None => 0,
        }
    }

    /// Returns the total time spent processing the request; excluding bindings overhead.
    pub fn duration(&self) -> (r: core::time::Duration)
        ensures
            r == duration_of_nanos(count_of(self.data_spec(), duration_key())),
    {
        duration_from_nanos(self.duration_nanos())
    }

    /// Returns the list of events that were produced by this evaluation, if it holds one.
    pub fn events(&self) -> (r: Option<&Keyed<WafArray>>)
        ensures
            r is Some <==> entry_for(self.data_spec(), events_key()) matches Some(Value::List(_)),
            r is Some ==> Some(r->0.value_spec()) == entry_for(self.data_spec(), events_key())
                && r->0.key_spec() == events_key(),
    {
        match lookup(self.data.inner(), vec![101u8, 118, 101, 110, 116, 115]) {
            Some(entry) => entry.as_type::<WafArray>(),
            None => None,
        }
    }

    /// Returns the actions that were produced by this evaluation, if it holds them.
    pub fn actions(&self) -> (r: Option<&Keyed<WafMap>>)
        ensures
            r is Some <==> entry_for(self.data_spec(), actions_key()) matches Some(Value::Dict(_)),
            r is Some ==> Some(r->0.value_spec()) == entry_for(self.data_spec(), actions_key())
                && r->0.key_spec() == actions_key(),
    {
        self.keyed_map(vec![97u8, 99, 116, 105, 111, 110, 115])
    }

    /// Returns the attributes that were produced by this evaluation, and which should be
    /// attached to the surrounding trace, if it holds them.
    pub fn attributes(&self) -> (r: Option<&Keyed<WafMap>>)
        ensures
            r is Some <==> entry_for(self.data_spec(), attributes_key()) matches Some(Value::Dict(_)),
            r is Some ==> Some(r->0.value_spec()) == entry_for(self.data_spec(), attributes_key())
                && r->0.key_spec() == attributes_key(),
    {
        self.keyed_map(vec![97u8, 116, 116, 114, 105, 98, 117, 116, 101, 115])
    }

    fn keyed_map(&self, key: Vec<u8>) -> (r: Option<&Keyed<WafMap>>)
        ensures
            r is Some <==> entry_for(self.data_spec(), key@) matches Some(Value::Dict(_)),
            r is Some ==> Some(r->0.value_spec()) == entry_for(self.data_spec(), key@)
                && r->0.key_spec() == key@,
    {
        match lookup(self.data.inner(), key) {
            Some(entry) => entry.as_type::<WafMap>(),
            None => None,
        }
    }
}

impl Context {
    /// Creates the state of a fresh evaluation context, holding no data yet.
    pub fn new() -> (r: Self)
        ensures
            r.retained().len() == 0,
    {
        Context { keepalive: Vec::new() }
    }

    /// The persistent data this context keeps alive, oldest first.
    pub closed spec fn retained(&self) -> Seq<Value> {
        Seq::new(self.keepalive@.len(), |i: int| self.keepalive@[i].value_spec())
    }

    /// Classifies the status code of an evaluation and takes ownership of its persistent data.
    ///
    /// On success (match or no match) the persistent data is kept for the rest of this
    /// context's life, since the engine may refer to it in later evaluations. On an internal
    /// error it is kept as well: whether the engine still refers to it is not documented, and a
    /// possible leak is preferred over a possible use after free. On the other errors it is
    /// dropped.
    pub fn complete_run(
        &mut self,
        status: i32,
        persistent_data: Option<WafMap>,
        output: WafOwned<WafMap>,
    ) -> (r: Result<RunResult, RunError>)
        requires
            known_status(status),
        ensures
            status == STATUS_OK <==> r matches Ok(RunResult::NoMatch(_)),
            status == STATUS_MATCH <==> r matches Ok(RunResult::Match(_)),
            status == STATUS_ERR_INTERNAL <==> r == Err::<RunResult, RunError>(RunError::InternalError),
            status == STATUS_ERR_INVALID_OBJECT <==> r == Err::<RunResult, RunError>(RunError::InvalidObject),
            status == STATUS_ERR_INVALID_ARGUMENT <==> r == Err::<RunResult, RunError>(RunError::InvalidArgument),
            r matches Ok(RunResult::NoMatch(out)) ==> out.data_spec() == output.value_spec()->Dict_0,
            r matches Ok(RunResult::Match(out)) ==> out.data_spec() == output.value_spec()->Dict_0,
            final(self).retained() == (match persistent_data {
                Some(data) if retains_spec(status) => old(self).retained().push(data.value_spec()),
                _ => old(self).retained(),
            }),
    {
        let keep = retains_persistent_data(status);
        if keep {
            match persistent_data {
                Some(data) => {
                    self.keepalive.push(data);
                },
                None => {},
            }
        }
        assert(self.retained() =~= (match persistent_data {
            Some(data) if keep => old(self).retained().push(data.value_spec()),
            _ => old(self).retained(),
        }));
        if status == STATUS_OK {
            Ok(RunResult::NoMatch(RunOutput::new(output)))
        } else if status == STATUS_MATCH {
            Ok(RunResult::Match(RunOutput::new(output)))
        } else if status == STATUS_ERR_INTERNAL {
            Err(RunError::InternalError)
        } else if status == STATUS_ERR_INVALID_OBJECT {
            Err(RunError::InvalidObject)
        } else {
            Err(RunError::InvalidArgument)
        }
    }
}

/// The timeout handed to the engine, in microseconds: the given count, saturated to `u64`.
pub fn timeout_micros(micros: u128) -> (r: u64)
    ensures
        r == (if micros > u64::MAX as u128 {
            u64::MAX
        } else {
            micros as u64
        }),
{
    if micros > u64::MAX as u128 {
        u64::MAX
    } else {
        micros as u64
    }
}

} // verus!
