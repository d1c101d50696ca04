//! Client of the shared inference cluster.
//!
//! What stands here is decided without the network: whether an endpoint can be used, how long a
//! request may take, and how failures are reported.

use crate::proto::{CircuitBreakerState, TaskType};
#[allow(unused_imports)]
use crate::text::decimal;
use crate::text::decimal_text;
use tonic::transport::Endpoint;
use vstd::prelude::*;

verus! {

/// Deadline of a classification request, in seconds.
pub const DEADLINE_CLASSIFICATION_S: u64 = 5;

/// Deadline of other requests, in seconds.
pub const DEADLINE_STANDARD_S: u64 = 60;

/// Deadline of an orchestration or reasoning request, in seconds.
pub const DEADLINE_ORCHESTRATION_S: u64 = 120;

/// How often a request is tried again.
pub const MAX_RETRIES: u32 = 3;

/// Milliseconds to wait before the first retry. Each further wait is twice as long.
pub const RETRY_BASE_MS: u64 = 50;

/// Errors of the inference cluster client.
#[derive(Debug)]
pub enum ClientError {
    /// The connection failed.
    Transport(String),
    /// The cluster answered with an error status.
    Status(String),
    /// All model slots are occupied.
    ClusterFull,
    /// The tenant has used up its token budget.
    BudgetExhausted { tenant_id: String },
    /// The circuit breaker of the model is open.
    CircuitOpen { model: String },
    /// The request did not finish in time.
    Timeout { timeout_ms: u64 },
    /// The request failed on every try.
    MaxRetriesExceeded,
}

impl ClientError {
    /// The text of the error.
    pub open spec fn text(&self) -> Seq<char> {
        match self {
            ClientError::Transport(reason) => "transport error: "@ + reason@,
            ClientError::Status(status) => "gRPC status: "@ + status@,
            ClientError::ClusterFull => "cluster full — all model slots occupied"@,
            ClientError::BudgetExhausted { tenant_id } => "budget exhausted for tenant "@ + tenant_id@,
            ClientError::CircuitOpen { model } => "circuit breaker open for model "@ + model@,
            ClientError::Timeout { timeout_ms } => "inference timeout after "@ + decimal(*timeout_ms as nat) + "ms"@,
            ClientError::MaxRetriesExceeded => "max retries (3) exceeded"@,
        }
    }

    /// Renders the error for people.
    pub fn message(&self) -> (message: String)
        ensures
            message@ == self.text(),
    {
        match self {
            ClientError::Transport(reason) => {
                let mut message = "transport error: ".to_owned();
                message.append(reason.as_str());
                message
            },
            ClientError::Status(status) => {
                let mut message = "gRPC status: ".to_owned();
                message.append(status.as_str());
                message
            },
            ClientError::ClusterFull => "cluster full — all model slots occupied".to_owned(),
            ClientError::BudgetExhausted { tenant_id } => {
                let mut message = "budget exhausted for tenant ".to_owned();
                message.append(tenant_id.as_str());
                message
            },
            ClientError::CircuitOpen { model } => {
                let mut message = "circuit breaker open for model ".to_owned();
                message.append(model.as_str());
                message
            },
            ClientError::Timeout { timeout_ms } => {
                let mut message = "inference timeout after ".to_owned();
                message.append(decimal_text(*timeout_ms).as_str());
                message.append("ms");
                message
            },
            ClientError::MaxRetriesExceeded => "max retries (3) exceeded".to_owned(),
        }
    }
}

/// One try of a request.
#[derive(Debug, Clone, Copy, PartialEq, Eq, Structural)]
pub struct Attempt {
    /// Tries that failed before.
    pub retries: u32,
    /// Milliseconds to wait before this try.
    pub wait_ms: u64,
    /// Seconds that the try may take.
    pub deadline_s: u64,
}

/// Why a try failed.
#[derive(Debug)]
pub enum AttemptFailure {
    /// All model slots are occupied.
    ClusterFull,
    /// The cluster failed in itself.
    Internal,
    /// The deadline passed.
    DeadlineExceeded,
    /// The cluster answered with another error status.
    Status(String),
    /// The connection failed.
    Transport(String),
}

/// The gRPC status code for a deadline that passed.
pub const STATUS_DEADLINE_EXCEEDED: i32 = 4;

/// The gRPC status code for exhausted resources, which a full cluster answers.
pub const STATUS_RESOURCE_EXHAUSTED: i32 = 8;

/// The gRPC status code for an internal failure.
pub const STATUS_INTERNAL: i32 = 13;

impl AttemptFailure {
    /// The failure that a gRPC status stands for.
    pub fn from_status(code: i32, text: String) -> (failure: Self)
        ensures
            failure == (if code == STATUS_RESOURCE_EXHAUSTED {
                AttemptFailure::ClusterFull
            } else if code == STATUS_INTERNAL {
                AttemptFailure::Internal
            } else if code == STATUS_DEADLINE_EXCEEDED {
                AttemptFailure::DeadlineExceeded
            } else {
                AttemptFailure::Status(text)
            }),
    {
        if code == STATUS_RESOURCE_EXHAUSTED {
            AttemptFailure::ClusterFull
        } else if code == STATUS_INTERNAL {
            AttemptFailure::Internal
        } else if code == STATUS_DEADLINE_EXCEEDED {
            AttemptFailure::DeadlineExceeded
        } else {
            AttemptFailure::Status(text)
        }
    }
}

/// The deadline of a kind of work, in seconds.
pub open spec fn deadline_of(task_type: TaskType) -> u64 {
    match task_type {
        TaskType::Classification => DEADLINE_CLASSIFICATION_S,
        TaskType::Orchestration | TaskType::Reasoning => DEADLINE_ORCHESTRATION_S,
        _ => DEADLINE_STANDARD_S,
    }
}

/// Milliseconds to wait before retry number `n`, counted from one.
pub open spec fn backoff_ms(n: nat) -> nat
    decreases n,
{
    if n == 0 {
        0
    } else if n == 1 {
        RETRY_BASE_MS as nat
    } else {
        2 * backoff_ms((n - 1) as nat)
    }
}

/// Milliseconds that a request waits in all before its retry number `n` is over.
pub open spec fn total_wait_ms(n: nat) -> nat
    decreases n,
{
    if n == 0 {
        0
    } else {
        total_wait_ms((n - 1) as nat) + backoff_ms(n)
    }
}

impl Attempt {
    /// Whether this try can be made: not more retries than there are, after the wait that belongs
    /// to them, within a deadline.
    pub open spec fn well_formed(&self) -> bool {
        &&& self.retries <= MAX_RETRIES
        &&& self.wait_ms == backoff_ms(self.retries as nat)
        &&& self.deadline_s <= DEADLINE_ORCHESTRATION_S
    }
}

/// What a failed try leads to: another one after a longer wait where the cluster was full or
/// failed in itself, and an error otherwise or when there were enough.
pub open spec fn failure_answer(
    attempt: Attempt,
    failure: AttemptFailure,
    result: Result<Attempt, ClientError>,
) -> bool {
    match failure {
        AttemptFailure::ClusterFull | AttemptFailure::Internal => {
            if attempt.retries < MAX_RETRIES {
                &&& result matches Ok(next)
                &&& next.retries == attempt.retries + 1
                &&& next.wait_ms == backoff_ms(attempt.retries as nat + 1)
                &&& next.deadline_s == attempt.deadline_s
            } else {
                result == Err::<Attempt, ClientError>(ClientError::MaxRetriesExceeded)
            }
        },
        AttemptFailure::DeadlineExceeded => {
            result == Err::<Attempt, ClientError>(
                ClientError::Timeout { timeout_ms: (attempt.deadline_s * 1000) as u64 },
            )
        },
        AttemptFailure::Status(status) => {
            result == Err::<Attempt, ClientError>(ClientError::Status(status))
        },
        AttemptFailure::Transport(reason) => {
            result == Err::<Attempt, ClientError>(ClientError::Transport(reason))
        },
    }
}

/// `tonic::transport::Endpoint`, carried unseen.
#[verifier::external_type_specification]
#[verifier::external_body]
pub struct ExEndpoint(Endpoint);

/// Whether tonic accepts a text as the URI of an endpoint.
pub uninterp spec fn is_endpoint(text: Seq<char>) -> bool;

/// `Endpoint::new` of tonic, with its error as text. The contract names the texts that it accepts
/// and states what its error says. Of the inside of the endpoint nothing is claimed.
#[verifier::external_body]
fn parse_endpoint(text: &str) -> (result: Result<Endpoint, String>)
    ensures
        (result is Ok) == is_endpoint(text@),
        match result {
            Ok(_) => true,
            Err(reason) => reason@ == "transport error"@,
        },
{
    Endpoint::new(text.to_string()).map_err(|error| error.to_string())
}

/// Client of the shared inference cluster.
#[derive(Debug)]
pub struct InferenceClusterClient {
    endpoint: Endpoint,
    circuit_state: CircuitBreakerState,
}

impl InferenceClusterClient {
    /// State of the circuit breaker in front of the cluster.
    pub closed spec fn breaker(&self) -> CircuitBreakerState {
        self.circuit_state
    }

    /// The endpoint of the gateway.
    pub closed spec fn target(&self) -> Endpoint {
        self.endpoint
    }

    /// Whether the endpoint is what `Endpoint::new` made of `text`.
    pub closed spec fn parsed_from(&self, text: &str) -> bool {
        call_ensures(parse_endpoint, (text,), Ok(self.endpoint))
    }

    /// A client for the gateway at `endpoint`. The connection is made with the first request;
    /// here only the URI is checked.
    pub fn connect(endpoint: &str) -> (result: Result<Self, ClientError>)
        ensures
            match result {
                Ok(client) => is_endpoint(endpoint@) && client.parsed_from(endpoint)
                    && client.breaker() == CircuitBreakerState::Closed,
                Err(error) => !is_endpoint(endpoint@) && error is Transport && error->Transport_0@
                    == "transport error"@,
            },
    {
        match parse_endpoint(endpoint) {
            Ok(target) => Ok(
                InferenceClusterClient {
                    endpoint: target,
                    circuit_state: CircuitBreakerState::Closed,
                },
            ),
            Err(reason) => Err(ClientError::Transport(reason)),
        }
    }

    /// The endpoint of the gateway.
    pub fn endpoint(&self) -> (endpoint: &Endpoint)
        ensures
            *endpoint == self.target(),
    {
        &self.endpoint
    }

    /// State of the circuit breaker.
    pub fn circuit_state(&self) -> (state: CircuitBreakerState)
        ensures
            state == self.breaker(),
    {
        self.circuit_state
    }

    /// Takes what the last probe of the cluster said of the circuit breaker.
    pub fn set_circuit_state(&mut self, state: CircuitBreakerState)
        ensures
            final(self).breaker() == state,
            final(self).target() == old(self).target(),
    {
        self.circuit_state = state;
    }

    /// Starts a request to a model: its first try, under the deadline of its kind of work. While
    /// the circuit breaker is open nothing is sent.
    pub fn infer(&self, model: &str, task_type: TaskType) -> (result: Result<Attempt, ClientError>)
        ensures
            if self.breaker() == CircuitBreakerState::Open {
                result matches Err(ClientError::CircuitOpen { model: m }) && m@ == model@
            } else {
                &&& result matches Ok(attempt)
                &&& attempt.well_formed()
                &&& attempt.retries == 0
                &&& attempt.wait_ms == 0
                &&& attempt.deadline_s == deadline_of(task_type)
            },
    {
        if self.circuit_state == CircuitBreakerState::Open {
            return Err(ClientError::CircuitOpen { model: model.to_owned() });
        }
        Ok(Attempt { retries: 0, wait_ms: 0, deadline_s: Self::deadline_for_task(task_type) })
    }

    /// Goes on after a try that failed.
    pub fn attempt_failed(&self, attempt: Attempt, failure: AttemptFailure) -> (result: Result<
        Attempt,
        ClientError,
    >)
        requires
            attempt.well_formed(),
        ensures
            failure_answer(attempt, failure, result),
            result matches Ok(next) ==> next.well_formed(),
    {
        match failure {
            AttemptFailure::ClusterFull | AttemptFailure::Internal => {
                if attempt.retries >= MAX_RETRIES {
                    return Err(ClientError::MaxRetriesExceeded);
                }
                proof {
                    reveal_with_fuel(backoff_ms, 4);
                }
                let wait_ms = if attempt.retries == 0 {
                    RETRY_BASE_MS
                } else {
                    2 * attempt.wait_ms
                };
                Ok(
                    Attempt {
                        retries: attempt.retries + 1,
                        wait_ms,
                        deadline_s: attempt.deadline_s,
                    },
                )
            },
            AttemptFailure::DeadlineExceeded => Err(
                ClientError::Timeout { timeout_ms: attempt.deadline_s * 1000 },
            ),
            AttemptFailure::Status(status) => Err(ClientError::Status(status)),
            AttemptFailure::Transport(reason) => Err(ClientError::Transport(reason)),
        }
    }

    /// How many seconds a request may take.
    pub fn deadline_for_task(task_type: TaskType) -> (secs: u64)
        ensures
            secs == deadline_of(task_type),
    {
        match task_type {
            TaskType::Classification => DEADLINE_CLASSIFICATION_S,
            TaskType::Orchestration | TaskType::Reasoning => DEADLINE_ORCHESTRATION_S,
            _ => DEADLINE_STANDARD_S,
        }
    }
}

/// A request is tried a bounded number of times: every answer that allows another try is one retry
/// further, and after the last there is none.
pub proof fn law_retries_are_bounded(
    attempt: Attempt,
    failure: AttemptFailure,
    result: Result<Attempt, ClientError>,
)
    requires
        attempt.well_formed(),
        failure_answer(attempt, failure, result),
    ensures
        result matches Ok(next) ==> attempt.retries < next.retries <= MAX_RETRIES,
        attempt.retries == MAX_RETRIES ==> result is Err,
{
}

/// The waits double, so that all of them together stay below twice the last one.
pub proof fn law_total_wait(n: nat)
    requires
        n > 0,
    ensures
        total_wait_ms(n) + RETRY_BASE_MS == 2 * backoff_ms(n),
    decreases n,
{
    if n == 1 {
        reveal_with_fuel(total_wait_ms, 2);
    } else {
        law_total_wait((n - 1) as nat);
    }
}

/// How long a request may take depends on its kind of work alone: five seconds for a
/// classification, two minutes for orchestration and reasoning, and one for everything else.
pub proof fn law_deadline_is_that_of_the_work(task_type: TaskType, secs: u64)
    requires
        call_ensures(InferenceClusterClient::deadline_for_task, (task_type,), secs),
    ensures
        task_type == TaskType::Classification <==> secs == 5,
        task_type == TaskType::Orchestration || task_type == TaskType::Reasoning <==> secs == 120,
        secs == 5 || secs == 60 || secs == 120,
{
}

/// A request is started at once, under the deadline of its kind of work, unless the circuit
/// breaker is open. Then it is refused with the name of its model, and not otherwise.
pub proof fn law_open_breaker_refuses_requests(
    client: InferenceClusterClient,
    model: &str,
    task_type: TaskType,
    secs: u64,
    result: Result<Attempt, ClientError>,
)
    requires
        call_ensures(InferenceClusterClient::infer, (&client, model, task_type), result),
        call_ensures(InferenceClusterClient::deadline_for_task, (task_type,), secs),
    ensures
        result is Err <==> client.breaker() == CircuitBreakerState::Open,
        match result {
            Ok(attempt) => attempt.retries == 0 && attempt.wait_ms == 0 && attempt.deadline_s
                == secs,
            Err(e) => e matches ClientError::CircuitOpen { model: m } && m@ == model@,
        },
{
}

/// The breaker is in the state that was set last, and closed in a new client.
pub proof fn law_breaker_is_as_set(
    client: &mut InferenceClusterClient,
    state: CircuitBreakerState,
    endpoint: &str,
    fresh: InferenceClusterClient,
)
    requires
        call_ensures(InferenceClusterClient::set_circuit_state, (client, state), ()),
        call_ensures(InferenceClusterClient::connect, (endpoint,), Ok(fresh)),
    ensures
        final(client).breaker() == state,
        final(client).target() == old(client).target(),
        fresh.breaker() == CircuitBreakerState::Closed,
{
}

/// Only a full cluster and an internal failure are worth another try, and three of them at most:
/// the first after fifty milliseconds, each further one after twice the wait before it, under the
/// same deadline.
pub proof fn law_retries_wait_twice_as_long(
    client: InferenceClusterClient,
    attempt: Attempt,
    failure: AttemptFailure,
    result: Result<Attempt, ClientError>,
)
    requires
        attempt.well_formed(),
        call_ensures(InferenceClusterClient::attempt_failed, (&client, attempt, failure), result),
    ensures
        result is Ok <==> (failure is ClusterFull || failure is Internal) && attempt.retries < 3,
        result matches Ok(next) ==> {
            &&& next.retries == attempt.retries + 1
            &&& next.deadline_s == attempt.deadline_s
            &&& attempt.retries == 0 ==> next.wait_ms == 50
            &&& attempt.retries > 0 ==> next.wait_ms == 2 * attempt.wait_ms
        },
{
    reveal_with_fuel(backoff_ms, 4);
}

/// A request that is not tried again fails with what happened: too many retries, the deadline that
/// passed, in milliseconds, or the status or failure of the connection as it was reported.
pub proof fn law_failures_are_reported(
    client: InferenceClusterClient,
    attempt: Attempt,
    failure: AttemptFailure,
    e: ClientError,
)
    requires
        attempt.well_formed(),
        call_ensures(InferenceClusterClient::attempt_failed, (&client, attempt, failure), Err(e)),
    ensures
        match failure {
            AttemptFailure::ClusterFull | AttemptFailure::Internal => e is MaxRetriesExceeded,
            AttemptFailure::DeadlineExceeded => e matches ClientError::Timeout { timeout_ms }
                && timeout_ms == 1000 * attempt.deadline_s,
            AttemptFailure::Status(status) => e == ClientError::Status(status),
            AttemptFailure::Transport(reason) => e == ClientError::Transport(reason),
        },
{
}

/// Of the gRPC status codes, exhausted resources mean a full cluster, an internal error means one,
/// a deadline means one, and every other stays a status with its text.
pub proof fn law_status_codes_are_told_apart(code: i32, text: String, failure: AttemptFailure)
    requires
        call_ensures(AttemptFailure::from_status, (code, text), failure),
    ensures
        failure is ClusterFull <==> code == 8,
        failure is Internal <==> code == 13,
        failure is DeadlineExceeded <==> code == 4,
        code != 4 && code != 8 && code != 13 ==> failure == AttemptFailure::Status(text),
{
}

} // verus!
