//! The decisions of the meta service client: which requests its worker
//! serves, which endpoints it connects to, and when it accepts a new list
//! of endpoints. The client itself, its channels and its runtime, drive
//! these decisions from outside.
use vstd::prelude::*;

use crate::error_code::ErrorCode;
use crate::error_code::ErrorKind;
use crate::meta_error::MetaError;
use crate::text::push_str;
use crate::meta_error::endpoints_non_empty;

verus! {

/// The kinds of request that a client handle sends to its worker.
#[derive(PartialEq, Eq, Structural, Clone, Copy, Debug)]
pub enum ClientRequestKind {
    Get,
    MGet,
    PrefixList,
    Upsert,
    Txn,
    Watch,
    Export,
    MakeClient,
    GetEndpoints,
}

/// How the worker serves a request.
#[derive(PartialEq, Eq, Structural, Clone, Copy, Debug)]
pub enum Service {
    /// A read through the meta service.
    Read,
    /// A write through the meta service.
    Write,
    /// A transaction.
    Transaction,
    /// A stream of changes.
    Watch,
    /// An export of all data.
    Export,
    /// A connection to a healthy endpoint.
    MakeClient,
    /// The endpoints currently known, without contacting the service.
    GetEndpoints,
}

/// What the worker does next.
#[derive(PartialEq, Eq, Structural, Clone, Copy, Debug)]
pub enum WorkerAction {
    /// The handles are gone: the worker stops.
    Quit,
    /// The requester no longer waits for the answer: the request is dropped.
    Skip,
    /// The request is served.
    Serve(Service),
}

/// The service that a kind of request gets.
pub open spec fn service_of(kind: ClientRequestKind) -> Service {
    match kind {
        ClientRequestKind::Get => Service::Read,
        ClientRequestKind::MGet => Service::Read,
        ClientRequestKind::PrefixList => Service::Read,
        ClientRequestKind::Upsert => Service::Write,
        ClientRequestKind::Txn => Service::Transaction,
        ClientRequestKind::Watch => Service::Watch,
        ClientRequestKind::Export => Service::Export,
        ClientRequestKind::MakeClient => Service::MakeClient,
        ClientRequestKind::GetEndpoints => Service::GetEndpoints,
    }
}

/// What the worker does with what it received: nothing means the channel
/// closed; a request whose answer nobody waits for is skipped.
pub fn worker_next_action(received: Option<ClientRequestKind>, response_closed: bool) -> (r: WorkerAction)
    ensures
        r == match received {
            None => WorkerAction::Quit,
            Some(kind) => if response_closed {
                WorkerAction::Skip
            } else {
                WorkerAction::Serve(service_of(kind))
            },
        },
{
    match received {
        None => WorkerAction::Quit,
        Some(kind) => {
            if response_closed {
                return WorkerAction::Skip;
            }
            let service = match kind {
                ClientRequestKind::Get => Service::Read,
                ClientRequestKind::MGet => Service::Read,
                ClientRequestKind::PrefixList => Service::Read,
                ClientRequestKind::Upsert => Service::Write,
                ClientRequestKind::Txn => Service::Transaction,
                ClientRequestKind::Watch => Service::Watch,
                ClientRequestKind::Export => Service::Export,
                ClientRequestKind::MakeClient => Service::MakeClient,
                ClientRequestKind::GetEndpoints => Service::GetEndpoints,
            };
            WorkerAction::Serve(service)
        },
    }
}

/// The number of endpoints that are not empty strings.
pub open spec fn count_nonempty(endpoints: Seq<String>) -> nat
    decreases endpoints.len(),
{
    if endpoints.len() == 0 {
        0
    } else {
        count_nonempty(endpoints.drop_last()) + if endpoints.last()@.len() > 0 { 1nat } else { 0nat }
    }
}

/// Whether a fetched list of endpoints replaces the current one: it must
/// name a majority of the cluster's nodes (older nodes store no endpoint
/// and give an empty string).
pub open spec fn endpoints_accepted(endpoints: Seq<String>) -> bool {
    count_nonempty(endpoints) >= endpoints.len() / 2 + 1
}

proof fn lemma_count_nonempty_le(endpoints: Seq<String>)
    ensures
        count_nonempty(endpoints) <= endpoints.len(),
    decreases endpoints.len(),
{
    if endpoints.len() > 0 {
        lemma_count_nonempty_le(endpoints.drop_last());
    }
}

/// Installs a fetched list of endpoints: an empty list is an error and
/// changes nothing; a list that names less than a majority is ignored;
/// any other list replaces the current one.
pub fn set_endpoints(current: &mut Vec<String>, endpoints: Vec<String>) -> (r: Result<(), MetaError>)
    ensures
        match r {
            Ok(()) => {
                &&& endpoints@.len() > 0
                &&& endpoints_accepted(endpoints@) ==> final(current)@ == endpoints@
                &&& !endpoints_accepted(endpoints@) ==> final(current)@ == old(current)@
            },
            Err(e) => {
                &&& endpoints@.len() == 0
                &&& e matches MetaError::InvalidConfig(s) && s@ == "endpoints is empty"@
                &&& final(current)@ == old(current)@
            },
        },
{
    match endpoints_non_empty(endpoints.as_slice()) {
        Ok(()) => {},
        Err(e) => return Err(e),
    }
    let mut distinct_cnt: usize = 0;
    let mut i: usize = 0;
    while i < endpoints.len()
        invariant
            i <= endpoints.len(),
            distinct_cnt == count_nonempty(endpoints@.subrange(0, i as int)),
        decreases endpoints.len() - i,
    {
        proof {
            lemma_count_nonempty_le(endpoints@.subrange(0, i as int));
            assert(endpoints@.subrange(0, i + 1).drop_last() =~= endpoints@.subrange(0, i as int));
        }
        if !endpoints[i].as_str().is_empty() {
            distinct_cnt = distinct_cnt + 1;
        }
        i = i + 1;
    }
    assert(endpoints@.subrange(0, endpoints.len() as int) =~= endpoints@);
    if distinct_cnt < endpoints.len() / 2 + 1 {
        return Ok(());
    }
    *current = endpoints;
    Ok(())
}

/// The endpoints a client tries, in order: with more than one, those not
/// marked unhealthy; a single endpoint is always tried.
pub open spec fn healthy_candidates(endpoints: Seq<String>, unhealthy: Seq<bool>) -> Seq<String> {
    if endpoints.len() <= 1 {
        endpoints
    } else {
        keep_healthy(endpoints, unhealthy)
    }
}

/// The endpoints not marked unhealthy, in order.
pub open spec fn keep_healthy(endpoints: Seq<String>, unhealthy: Seq<bool>) -> Seq<String>
    decreases endpoints.len(),
{
    if endpoints.len() == 0 {
        Seq::empty()
    } else {
        let rest = keep_healthy(endpoints.drop_last(), unhealthy);
        if unhealthy[endpoints.len() - 1] {
            rest
        } else {
            rest.push(endpoints.last())
        }
    }
}

/// The endpoints to try when connecting; `unhealthy` tells, position by
/// position, which endpoints failed recently.
pub fn make_client_candidates(endpoints: Vec<String>, unhealthy: &Vec<bool>) -> (r: Vec<String>)
    requires
        unhealthy@.len() == endpoints@.len(),
    ensures
        r@ == healthy_candidates(endpoints@, unhealthy@),
{
    if endpoints.len() <= 1 {
        return endpoints;
    }
    let mut kept: Vec<String> = Vec::new();
    let mut i: usize = 0;
    let ghost all = endpoints@;
    let rest = endpoints;
    while i < rest.len()
        invariant
            rest@ == all,
            unhealthy@.len() == all.len(),
            i <= all.len(),
            kept@ == keep_healthy(all.subrange(0, i as int), unhealthy@),
        decreases all.len() - i,
    {
        assert(all.subrange(0, i + 1).drop_last() =~= all.subrange(0, i as int));
        if !unhealthy[i] {
            let e = rest[i].clone();
            kept.push(e);
        }
        i = i + 1;
    }
    assert(all.subrange(0, all.len() as int) =~= all);
    kept
}

/// The outcome of one attempt to connect to an endpoint and shake hands:
/// the token the service handed out, or the failure.
#[derive(Debug)]
pub enum AttemptOutcome {
    Connected(Vec<u8>),
    Failed(MetaError),
}

/// What follows an attempt to connect. After a failure the endpoint is
/// marked unhealthy.
#[derive(Debug)]
pub enum MakeClientAction {
    /// Connected: requests carry the token.
    Use(AuthInterceptor),
    /// Failed, and another endpoint is left to try.
    TryNext,
    /// Failed on the last endpoint.
    Fail(MetaError),
}

/// Attaches the token of a handshake to every request.
#[derive(Debug, Clone)]
pub struct AuthInterceptor {
    pub token: Vec<u8>,
}

/// What follows an attempt: connect with its token, or try the next
/// endpoint, or, when it was the last, fail with its error.
pub fn after_attempt(is_last: bool, outcome: AttemptOutcome) -> (r: MakeClientAction)
    ensures
        match outcome {
            AttemptOutcome::Connected(token) => r matches MakeClientAction::Use(a) && a.token@ == token@,
            AttemptOutcome::Failed(e) => if is_last {
                r matches MakeClientAction::Fail(f) && f == e
            } else {
                r is TryNext
            },
        },
{
    match outcome {
        AttemptOutcome::Connected(token) => MakeClientAction::Use(AuthInterceptor { token }),
        AttemptOutcome::Failed(e) => {
            if is_last {
                MakeClientAction::Fail(e)
            } else {
                MakeClientAction::TryNext
            }
        },
    }
}

/// The error when there is no endpoint left to try.
pub fn no_endpoint_error() -> (r: MetaError)
    ensures
        r matches MetaError::InvalidConfig(s) && s@ == "endpoints is empty"@,
{
    MetaError::InvalidConfig(String::from_str("endpoints is empty"))
}


/// The answer a client handle receives: a reply of the kind of its request,
/// or, for a request for the endpoints, the endpoints themselves.
#[derive(Debug)]
pub enum Response<R> {
    Get(R),
    MGet(R),
    PrefixList(R),
    Upsert(R),
    Txn(R),
    Watch(R),
    Export(R),
    MakeClient(R),
    GetEndpoints(Vec<String>),
}

/// What serving a request gave: the outcome of the call to the meta
/// service, or the endpoints the client knows.
#[derive(Debug)]
pub enum ServiceOutcome<R> {
    Reply(Result<R, MetaError>),
    Endpoints(Vec<String>),
}

/// The response of the kind of a request that carries a reply; a request
/// for the endpoints carries none.
pub open spec fn response_of<R>(kind: ClientRequestKind, reply: R) -> Option<Response<R>> {
    match kind {
        ClientRequestKind::Get => Some(Response::Get(reply)),
        ClientRequestKind::MGet => Some(Response::MGet(reply)),
        ClientRequestKind::PrefixList => Some(Response::PrefixList(reply)),
        ClientRequestKind::Upsert => Some(Response::Upsert(reply)),
        ClientRequestKind::Txn => Some(Response::Txn(reply)),
        ClientRequestKind::Watch => Some(Response::Watch(reply)),
        ClientRequestKind::Export => Some(Response::Export(reply)),
        ClientRequestKind::MakeClient => Some(Response::MakeClient(reply)),
        ClientRequestKind::GetEndpoints => None,
    }
}

/// What the worker sends back for a served request: the reply wrapped as
/// the response of the request's kind, the error when serving failed, and,
/// for a request for the endpoints, always the current endpoints.
pub fn worker_answer<R>(kind: ClientRequestKind, outcome: ServiceOutcome<R>) -> (r: Result<Response<R>, MetaError>)
    requires
        (kind == ClientRequestKind::GetEndpoints) == (outcome is Endpoints),
    ensures
        match outcome {
            ServiceOutcome::Endpoints(eps) => r matches Ok(Response::GetEndpoints(e)) && e@ == eps@,
            ServiceOutcome::Reply(Err(e)) => r matches Err(f) && f == e,
            ServiceOutcome::Reply(Ok(x)) => response_of(kind, x) matches Some(resp) && r == Ok::<Response<R>, MetaError>(resp),
        },
{
    match outcome {
        ServiceOutcome::Endpoints(eps) => Ok(Response::GetEndpoints(eps)),
        ServiceOutcome::Reply(Err(e)) => Err(e),
        ServiceOutcome::Reply(Ok(x)) => Ok(
            match kind {
                ClientRequestKind::Get => Response::Get(x),
                ClientRequestKind::MGet => Response::MGet(x),
                ClientRequestKind::PrefixList => Response::PrefixList(x),
                ClientRequestKind::Upsert => Response::Upsert(x),
                ClientRequestKind::Txn => Response::Txn(x),
                ClientRequestKind::Watch => Response::Watch(x),
                ClientRequestKind::Export => Response::Export(x),
                ClientRequestKind::MakeClient => Response::MakeClient(x),
                ClientRequestKind::GetEndpoints => Response::GetEndpoints(Vec::new()),
            },
        ),
    }
}

/// Connects to the first endpoint that accepts, trying the candidates in
/// order: `outcomes` holds, candidate by candidate, what connecting to it
/// and shaking hands gives (only the attempts up to the first success are
/// made). Returns the interceptor with the token of the first success, or
/// the failure of the last candidate, or, with no candidate, the error that
/// there are no endpoints; and the endpoints that failed on the way, which
/// are marked unhealthy.
pub fn make_client(endpoints: Vec<String>, unhealthy: &Vec<bool>, outcomes: Vec<AttemptOutcome>) -> (r: (
    Result<AuthInterceptor, MetaError>,
    Vec<String>,
))
    requires
        unhealthy@.len() == endpoints@.len(),
        outcomes@.len() == healthy_candidates(endpoints@, unhealthy@).len(),
    ensures
        ({
            let c = healthy_candidates(endpoints@, unhealthy@);
            match r.0 {
                Ok(a) => exists|k: int| {
                    &&& 0 <= k < c.len()
                    &&& (#[trigger] outcomes@[k] matches AttemptOutcome::Connected(t) && a.token@ == t@)
                    &&& forall|j: int| 0 <= j < k ==> outcomes@[j] is Failed
                    &&& r.1@ == c.subrange(0, k)
                },
                Err(e) => {
                    &&& forall|j: int| 0 <= j < c.len() ==> outcomes@[j] is Failed
                    &&& r.1@ == c
                    &&& c.len() == 0 ==> (e matches MetaError::InvalidConfig(s) && s@ == "endpoints is empty"@)
                    &&& c.len() > 0 ==> (outcomes@[c.len() - 1] matches AttemptOutcome::Failed(f) && e == f)
                },
            }
        }),
{
    let ghost outs = outcomes@;
    let ghost c = healthy_candidates(endpoints@, unhealthy@);
    let cands = make_client_candidates(endpoints, unhealthy);
    let n = cands.len();
    if n == 0 {
        return (Err(no_endpoint_error()), Vec::new());
    }
    let mut marked: Vec<String> = Vec::new();
    let mut rest = outcomes;
    let mut i: usize = 0;
    while i < n
        invariant
            cands@ == c,
            c == healthy_candidates(endpoints@, unhealthy@),
            outcomes@ == outs,
            n == cands@.len(),
            outs.len() == n,
            i < n,
            rest@ == outs.subrange(i as int, n as int),
            marked@ == cands@.subrange(0, i as int),
            forall|j: int| 0 <= j < i ==> outs[j] is Failed,
        decreases n - i,
    {
        let o = rest.remove(0);
        assert(o == outs[i as int]);
        let is_last = i + 1 == n;
        match after_attempt(is_last, o) {
            MakeClientAction::Use(a) => {
                assert(outs[i as int] matches AttemptOutcome::Connected(t) && a.token@ == t@);
                return (Ok(a), marked);
            },
            MakeClientAction::TryNext => {
                marked.push(cands[i].clone());
                assert(marked@ =~= cands@.subrange(0, i + 1));
            },
            MakeClientAction::Fail(e) => {
                marked.push(cands[i].clone());
                assert(marked@ =~= cands@.subrange(0, i + 1));
                assert(cands@.subrange(0, n as int) =~= cands@);
                assert(outs[i as int] matches AttemptOutcome::Failed(f) && e == f);
                assert(forall|j: int| 0 <= j < n ==> outs[j] is Failed);
                return (Err(e), marked);
            },
        }
        i = i + 1;
        assert(rest@ =~= outs.subrange(i as int, n as int));
    }
    (Err(no_endpoint_error()), marked)
}


/// The message when the meta server's protocol is older than this client
/// accepts, with the two versions written out.
pub open spec fn incompatible_message(server_version: Seq<char>, min_version: Seq<char>) -> Seq<char> {
    "metasrv protocol_version("@ + server_version + ") < meta-client min-compatible("@ + min_version + ")"@
}

/// What the reply to a handshake gives: the token it carries, unless the
/// server states a protocol version below the oldest this client accepts,
/// which is an invalid-argument network error. A reply with version zero
/// comes from a server that states no version and is accepted. Versions
/// are digit versions; `server_version_text` and `min_version_text` are the
/// two versions written out.
pub fn handshake_token(
    protocol_version: u64,
    min_compatible: u64,
    payload: Vec<u8>,
    server_version_text: &str,
    min_version_text: &str,
) -> (r: Result<Vec<u8>, MetaError>)
    ensures
        if protocol_version > 0 && protocol_version < min_compatible {
            r matches Err(MetaError::MetaNetworkError(e)) && e.kind == ErrorKind::InvalidArgument && e.message@
                == incompatible_message(server_version_text@, min_version_text@)
        } else {
            r matches Ok(t) && t@ == payload@
        },
{
    if protocol_version > 0 && protocol_version < min_compatible {
        let mut m = String::new();
        push_str(&mut m, "metasrv protocol_version(");
        push_str(&mut m, server_version_text);
        push_str(&mut m, ") < meta-client min-compatible(");
        push_str(&mut m, min_version_text);
        push_str(&mut m, ")");
        return Err(MetaError::MetaNetworkError(ErrorCode::create(ErrorKind::InvalidArgument, m)));
    }
    Ok(payload)
}


/// A fetched list of endpoints replaces the current one exactly when its
/// non-empty endpoints are a strict majority of it, the non-empty ones
/// being counted one by one.
pub proof fn law_endpoints_need_strict_majority(endpoints: Seq<String>)
    ensures
        count_nonempty(endpoints) == endpoints.filter(|e: String| e@.len() > 0).len(),
        endpoints_accepted(endpoints) <==> 2 * endpoints.filter(|e: String| e@.len() > 0).len() > endpoints.len(),
    decreases endpoints.len(),
{
    reveal(Seq::filter);
    if endpoints.len() > 0 {
        law_endpoints_need_strict_majority(endpoints.drop_last());
    }
}

} // verus!
