use vstd::prelude::*;

use crate::error::{ConnectError, ConnectErrorView};
use crate::target::{Target, TargetView};

verus! {

/// A stream that might be protected with TLS: a closed union over a plain
/// transport stream `T` and a TLS-secured stream `S`. Exactly one variant
/// is populated, and the tag never changes after construction.
#[derive(Debug)]
pub enum MaybeHttpsStream<T, S> {
    /// A stream over plain text.
    Http(T),
    /// A stream protected with TLS.
    Https(S),
}

impl<T, S> MaybeHttpsStream<T, S> {
    /// Whether this is the TLS-protected variant.
    pub fn is_https(&self) -> (r: bool)
        ensures
            r == (self matches MaybeHttpsStream::Https(_)),
    {
        match self {
            MaybeHttpsStream::Http(_) => false,
            MaybeHttpsStream::Https(_) => true,
        }
    }
}

/// What the connector decided to do for one target: which host to connect
/// to, and whether the raw stream must be secured afterwards.
#[derive(Debug, Clone)]
pub struct ConnectPlan {
    /// The host to hand to the transport, and to verify the TLS peer
    /// against.
    pub host: String,
    /// Whether a TLS handshake must follow the transport connect.
    pub secure: bool,
}

/// The mathematical shape of a `ConnectPlan`.
pub struct ConnectPlanView {
    pub host: Seq<char>,
    pub secure: bool,
}

impl View for ConnectPlan {
    type V = ConnectPlanView;

    open spec fn view(&self) -> ConnectPlanView {
        ConnectPlanView { host: self.host@, secure: self.secure }
    }
}

/// What remains to be done once the transport has connected: either the
/// stream is already complete, or a TLS handshake against `host` must still
/// secure it.
#[derive(Debug)]
pub enum TransportStep<T, S> {
    /// The connection is done; no handshake is needed.
    Established(MaybeHttpsStream<T, S>),
    /// The raw stream must still be secured against the named host.
    NeedsTls { host: String, transport: T },
}

/// The mathematical shape of a `TransportStep`.
pub enum TransportStepView<T, S> {
    Established(MaybeHttpsStream<T, S>),
    NeedsTls(Seq<char>, T),
}

/// Whether a scheme asks for TLS: only `https` does; a target with any
/// other scheme, or none, falls through to a plain stream.
pub open spec fn spec_is_https(scheme: Option<Seq<char>>) -> bool {
    scheme == Some("https"@)
}

/// What the connector decides before any I/O: a target without a host is
/// invalid, and any other target yields the host to connect to together
/// with whether the stream must be secured.
pub open spec fn spec_plan(target: TargetView) -> Result<ConnectPlanView, ConnectErrorView> {
    match target.host {
        Some(host) => Ok(ConnectPlanView { host, secure: spec_is_https(target.scheme) }),
        None => Err(ConnectErrorView::InvalidTarget),
    }
}

/// What the connector decides once the transport connect has finished: a
/// transport failure is passed through as a `Transport` error; a raw stream
/// for a plain plan is complete as it stands; a raw stream for a secure
/// plan still needs the handshake.
pub open spec fn spec_after_transport<T, S>(
    plan: ConnectPlanView,
    outcome: Result<T, Seq<char>>,
) -> Result<TransportStepView<T, S>, ConnectErrorView> {
    match outcome {
        Ok(transport) => if plan.secure {
            Ok(TransportStepView::NeedsTls(plan.host, transport))
        } else {
            Ok(TransportStepView::Established(MaybeHttpsStream::Http(transport)))
        },
        Err(cause) => Err(ConnectErrorView::Transport(cause)),
    }
}

/// What the connector decides once the TLS work has finished: a failure of
/// either TLS step — building the context or running the handshake — is
/// reported as one `Tls` error; a secured stream completes the connection.
pub open spec fn spec_after_handshake<T, S>(outcome: Result<S, Seq<char>>) -> Result<
    MaybeHttpsStream<T, S>,
    ConnectErrorView,
> {
    match outcome {
        Ok(secured) => Ok(MaybeHttpsStream::Https(secured)),
        Err(cause) => Err(ConnectErrorView::Tls(cause)),
    }
}

/// The whole connect flow as one function of the target and the outcomes
/// the two collaborators would produce: the composition of `spec_plan`,
/// `spec_after_transport` and `spec_after_handshake`.
///
/// A target without a host fails before the transport outcome is ever
/// consulted, and a plan that is not secure never consults the handshake
/// outcome.
pub open spec fn spec_connect<T, S>(
    target: TargetView,
    transport: Result<T, Seq<char>>,
    handshake: Result<S, Seq<char>>,
) -> Result<MaybeHttpsStream<T, S>, ConnectErrorView> {
    match spec_plan(target) {
        Err(e) => Err(e),
        Ok(plan) => match spec_after_transport::<T, S>(plan, transport) {
            Err(e) => Err(e),
            Ok(TransportStepView::Established(stream)) => Ok(stream),
            Ok(TransportStepView::NeedsTls(_, _)) => spec_after_handshake::<T, S>(handshake),
        },
    }
}

/// A connector for the `https` scheme, planning one connection per target:
/// plain transport for every scheme but `https`, transport plus TLS
/// handshake for `https`.
///
/// The connector holds no state of its own; each call owns its inputs, so
/// independent targets may be planned concurrently.
#[derive(Clone, Debug)]
pub struct HttpsConnector {}

impl HttpsConnector {
    /// Construct a new `HttpsConnector`.
    pub fn new() -> HttpsConnector {
        HttpsConnector {}
    }

    /// Decide, before any I/O, what connecting to `target` takes.
    ///
    /// A target without a host fails immediately with `InvalidTarget`;
    /// no connection attempt is to be made for it. Any other target yields
    /// its host and whether the raw stream must be secured — exactly when
    /// the scheme is `https`.
    pub fn plan(&self, target: &Target) -> (r: Result<ConnectPlan, ConnectError>)
        ensures
            r matches Ok(p) ==> spec_plan(target@) == Ok::<ConnectPlanView, ConnectErrorView>(p@),
            r matches Err(e) ==> spec_plan(target@) == Err::<ConnectPlanView, ConnectErrorView>(
                e@,
            ),
    {
        let host = match target.host() {
            Some(host) => host.clone(),
            None => {
                return Err(ConnectError::InvalidTarget);
            },
        };
        let secure = is_https_scheme(target.scheme());
        Ok(ConnectPlan { host, secure })
    }

    /// Consume the outcome of the transport connect for `plan`.
    ///
    /// A transport failure is wrapped verbatim as `Transport`; a raw
    /// stream completes a plain plan as `Http`, and leaves a secure plan
    /// waiting for the handshake against the plan's host.
    pub fn after_transport<T, S>(&self, plan: &ConnectPlan, outcome: Result<T, String>) -> (r:
        Result<TransportStep<T, S>, ConnectError>)
        ensures
            r matches Ok(step) ==> spec_after_transport::<T, S>(plan@, outcome_view(outcome))
                == Ok::<TransportStepView<T, S>, ConnectErrorView>(step_view(step)),
            r matches Err(e) ==> spec_after_transport::<T, S>(plan@, outcome_view(outcome))
                == Err::<TransportStepView<T, S>, ConnectErrorView>(e@),
    {
        match outcome {
            Ok(transport) => if plan.secure {
                Ok(TransportStep::NeedsTls { host: plan.host.clone(), transport })
            } else {
                Ok(TransportStep::Established(MaybeHttpsStream::Http(transport)))
            },
            Err(cause) => Err(ConnectError::Transport(cause)),
        }
    }

    /// Consume the outcome of the TLS work for a plan that needed it.
    ///
    /// The caller funnels both TLS failure points — building the client
    /// context and running the handshake — into the one outcome, and both
    /// come back as a single `Tls` error; a secured stream completes the
    /// connection as `Https`.
    pub fn after_handshake<T, S>(&self, outcome: Result<S, String>) -> (r: Result<
        MaybeHttpsStream<T, S>,
        ConnectError,
    >)
        ensures
            r matches Ok(stream) ==> spec_after_handshake::<T, S>(outcome_view(outcome))
                == Ok::<MaybeHttpsStream<T, S>, ConnectErrorView>(stream),
            r matches Err(e) ==> spec_after_handshake::<T, S>(outcome_view(outcome)) == Err::<
                MaybeHttpsStream<T, S>,
                ConnectErrorView,
            >(e@),
    {
        match outcome {
            Ok(secured) => Ok(MaybeHttpsStream::Https(secured)),
            Err(cause) => Err(ConnectError::Tls(cause)),
        }
    }
}

/// A collaborator outcome with its cause read as a character sequence.
pub open spec fn outcome_view<T>(outcome: Result<T, String>) -> Result<T, Seq<char>> {
    match outcome {
        Ok(value) => Ok(value),
        Err(cause) => Err(cause@),
    }
}

/// A transport step with its host read as a character sequence.
pub open spec fn step_view<T, S>(step: TransportStep<T, S>) -> TransportStepView<T, S> {
    match step {
        TransportStep::Established(stream) => TransportStepView::Established(stream),
        TransportStep::NeedsTls { host, transport } => TransportStepView::NeedsTls(
            host@,
            transport,
        ),
    }
}

/// Plain fallthrough: for a target whose scheme is not `https` — another
/// scheme or none at all — the connect flow never consults the TLS
/// collaborator's outcome, and on transport success the result is always
/// the `Http` variant.
pub proof fn lemma_plain_fallthrough<T, S>(
    target: TargetView,
    transport: Result<T, Seq<char>>,
    tls_one: Result<S, Seq<char>>,
    tls_other: Result<S, Seq<char>>,
)
    requires
        !spec_is_https(target.scheme),
    ensures
        spec_connect::<T, S>(target, transport, tls_one) == spec_connect::<T, S>(
            target,
            transport,
            tls_other,
        ),
        (target.host is Some && transport is Ok) ==> spec_connect::<T, S>(
            target,
            transport,
            tls_one,
        ) == Ok::<MaybeHttpsStream<T, S>, ConnectErrorView>(MaybeHttpsStream::Http(
            transport->Ok_0,
        )),
{
}

/// Secure wrapping: for a target with scheme `https` and a host, when both
/// the transport connect and the handshake succeed, the result is always
/// the `Https` variant holding the secured stream.
pub proof fn lemma_secure_wrapping<T, S>(
    target: TargetView,
    transport: Result<T, Seq<char>>,
    handshake: Result<S, Seq<char>>,
)
    requires
        spec_is_https(target.scheme),
        target.host is Some,
        transport is Ok,
        handshake is Ok,
    ensures
        spec_connect::<T, S>(target, transport, handshake) == Ok::<
            MaybeHttpsStream<T, S>,
            ConnectErrorView,
        >(MaybeHttpsStream::Https(handshake->Ok_0)),
{
}

/// Missing host: for a target without a host the connect flow fails with
/// `InvalidTarget`, and consults neither collaborator's outcome — no
/// transport attempt is part of the result.
pub proof fn lemma_missing_host<T, S>(
    target: TargetView,
    transport_one: Result<T, Seq<char>>,
    transport_other: Result<T, Seq<char>>,
    tls_one: Result<S, Seq<char>>,
    tls_other: Result<S, Seq<char>>,
)
    requires
        target.host is None,
    ensures
        spec_connect::<T, S>(target, transport_one, tls_one) == Err::<
            MaybeHttpsStream<T, S>,
            ConnectErrorView,
        >(ConnectErrorView::InvalidTarget),
        spec_connect::<T, S>(target, transport_one, tls_one) == spec_connect::<T, S>(
            target,
            transport_other,
            tls_other,
        ),
{
}

/// Whether a scheme component names `https`.
fn is_https_scheme(scheme: &Option<String>) -> (r: bool)
    ensures
        r == spec_is_https(scheme.deep_view()),
{
    match scheme {
        Some(s) => {
            let https: String = "https".to_owned();
            *s == https
        },
        None => false,
    }
}

} // verus!
