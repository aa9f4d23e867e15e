//! The per-connection authentication state machine. Every decision of
//! the flow — accept, challenge, reject, roll back — is a function from
//! the current state and a collaborator's answer to the next state and a
//! transport response. The collaborators themselves (the identity
//! provider's HTTP calls, the cluster authorization check, the
//! transport) run outside the library and hand their answers in as
//! plain values.

pub mod state;

use vstd::prelude::*;
use vstd::string::StringExecFns;

use crate::errors::Error;
use crate::events::{Event, WindowSize};
use crate::identity::Identity;
use crate::io::Channel;
use crate::openid::DeviceCode;
use crate::ssh::{Auth, AuthMethod, Method, PublicKey};
use state::{code_used_next, offered_key, State};

verus! {

/// Whether the identity provider's verification URL fits in a QR code.
pub uninterp spec fn qr_encodes(s: Seq<char>) -> bool;

/// The terminal rendering of the QR code for a string.
pub uninterp spec fn qr_text_of(s: Seq<char>) -> Seq<char>;

/// Relies on fast_qr's `QRBuilder::build` and `QRCode::to_str`: both
/// whether the input fits in a QR code and the rendering produced are
/// functions of the input string alone; `build` fails exactly when the
/// input is too large to encode.
#[verifier::external_body]
fn qr_encode(uri: &str) -> (r: Option<String>)
    ensures
        r is Some <==> qr_encodes(uri@),
        r matches Some(s) ==> s@ == qr_text_of(uri@),
{
    match fast_qr::QRBuilder::new(uri).build() {
        Ok(qr) => Some(qr.to_str()),
        Err(_) => None,
    }
}

/// The single prompt of a device-code challenge: the QR rendering, then
/// the URL itself, then the re-poll instruction.
pub open spec fn challenge_prompt(uri: Seq<char>) -> Seq<char> {
    "\n"@ + qr_text_of(uri) + "\n\n"@ + uri + "\n\nPress Enter to continue"@
}

/// The challenge a freshly issued device code is presented as.
pub open spec fn is_code_challenge(a: Auth, uri: Seq<char>) -> bool {
    &&& a matches Auth::Partial { name, instructions, prompts }
    &&& name@ == "Welcome to KubeRift"@
    &&& instructions@ == "\nLogin or scan the QRCode below to validate your identity:\n"@
    &&& prompts@.len() == 1
    &&& prompts@[0].0@ == challenge_prompt(uri)
    &&& prompts@[0].1 == false
}

/// The re-poll prompt returned while the device code is not yet approved.
pub open spec fn is_waiting_prompt(a: Auth) -> bool {
    &&& a matches Auth::Partial { name, instructions, prompts }
    &&& name@ == ""@
    &&& instructions@ == "Waiting for activation, please try again."@
    &&& prompts@.len() == 1
    &&& prompts@[0].0@ == "Press Enter to continue"@
    &&& prompts@[0].1 == false
}

/// The outcome of asking the identity provider to resolve a device code.
/// A failure carries the HTTP status of the provider's answer, if the
/// failure was an HTTP one at all.
#[derive(PartialEq, Eq, Debug)]
pub enum Resolution {
    Resolved(Identity),
    Failed { http_status: Option<u16> },
}

/// What a keyboard-interactive round must do next, decided from the
/// current state alone.
#[derive(Clone, Copy, PartialEq, Eq, Structural, Debug)]
pub enum KiStep {
    /// Ask the identity provider for a fresh device code, then call
    /// `send_code`.
    IssueCode,
    /// Resolve the held device code, then call `authenticate_code`.
    ResolveCode,
}

/// What follows a device-code resolution: either a response to send as
/// is, or an identity whose authorization must be checked before
/// `code_authorized` finishes the round.
#[derive(PartialEq, Eq, Debug)]
pub enum CodeStep {
    Respond(Auth),
    Authorize(Identity),
}

/// Everything the transport needs to start a dashboard: the channel the
/// session now owns, the identity to impersonate, and the initial size.
#[derive(PartialEq, Eq, Debug)]
pub struct PtyStart {
    pub channel: Channel,
    pub user: Identity,
    pub resize: Event,
}

/// Channel data to forward to a running dashboard, verbatim.
#[derive(PartialEq, Eq, Debug)]
pub struct Forward {
    pub channel: Channel,
    pub bytes: Vec<u8>,
}

/// One state-changing operation of the authentication machine, with the
/// collaborator answer it was given.
pub enum Op {
    /// A public key was offered; `bound` is the identity a stored
    /// binding resolved it to, if any.
    OfferKey { key: PublicKey, bound: Option<Identity> },
    /// A fresh device code was issued.
    IssueCode { code: DeviceCode },
    /// The held device code was passed through resolution.
    ResolveCode { resolution: Resolution },
    /// The authorization check answered for a resolved identity.
    Authorized { user: Option<Identity> },
    /// A PTY was requested on a channel.
    PtyRequest { id: u64 },
}

/// The state transition relation of the authentication machine.
pub open spec fn next_state(s: State, op: Op) -> State {
    match op {
        Op::OfferKey { key, bound } => match bound {
            Some(user) => State::Authenticated(user, AuthMethod::PublicKey),
            None => State::KeyOffered(key),
        },
        Op::IssueCode { code } => State::CodeSent(code, offered_key(s)),
        Op::ResolveCode { .. } => if s is CodeSent {
            code_used_next(s)
        } else {
            s
        },
        Op::Authorized { user } => match user {
            Some(u) => State::Authenticated(u, AuthMethod::OpenId),
            None => s,
        },
        Op::PtyRequest { id } => if s is Authenticated {
            State::PtyStarted(Channel { id })
        } else {
            s
        },
    }
}

/// Whether an operation answers the client with Accept.
pub open spec fn accepts(op: Op) -> bool {
    match op {
        Op::OfferKey { bound, .. } => bound is Some,
        Op::Authorized { user } => user is Some,
        _ => false,
    }
}

/// Which step a keyboard-interactive round takes in each state.
pub open spec fn ki_route(s: State) -> Result<KiStep, Error> {
    match s {
        State::Unauthenticated => Ok(KiStep::IssueCode),
        State::KeyOffered(_) => Ok(KiStep::IssueCode),
        State::CodeSent(_, _) => Ok(KiStep::ResolveCode),
        _ => Err(Error::ProtocolViolation),
    }
}

/// The window size a resize request carries, taken modulo the u16 range
/// of a terminal cell or pixel count.
pub open spec fn window_size_of(cx: u32, cy: u32, px: u32, py: u32) -> WindowSize {
    WindowSize {
        columns: (cx % 65536) as u16,
        rows: (cy % 65536) as u16,
        pixel_width: (px % 65536) as u16,
        pixel_height: (py % 65536) as u16,
    }
}

fn resize_event(cx: u32, cy: u32, px: u32, py: u32) -> (r: Event)
    ensures
        r == Event::Resize(window_size_of(cx, cy, px, py)),
{
    Event::Resize(
        WindowSize {
            columns: (cx % 65536) as u16,
            rows: (cy % 65536) as u16,
            pixel_width: (px % 65536) as u16,
            pixel_height: (py % 65536) as u16,
        },
    )
}

/// The response to a device-code resolution failure: the distinguished
/// "not yet authorized" status re-prompts the user; anything else is a
/// hard transport failure ending the attempt.
pub fn token_response(http_status: Option<u16>) -> (r: Result<Auth, Error>)
    ensures
        http_status == Some(403u16) ==> (r matches Ok(a) && is_waiting_prompt(a)),
        http_status != Some(403u16) ==> r == Err::<Auth, Error>(Error::TransportError),
{
    match http_status {
        Some(code) if code == 403 => {
            let name = String::from_str("");
            let instructions = String::from_str("Waiting for activation, please try again.");
            let mut prompts: Vec<(String, bool)> = Vec::new();
            prompts.push((String::from_str("Press Enter to continue"), false));
            Ok(Auth::Partial { name, instructions, prompts })
        },
        _ => Err(Error::TransportError),
    }
}

/// One connection's authentication state machine.
#[derive(Debug)]
pub struct Session {
    pub state: State,
}

impl Session {
    pub fn new() -> (s: Session)
        ensures
            s.state == State::Unauthenticated,
    {
        Session { state: State::Unauthenticated }
    }

    /// A client offered a public key; `bound` is the identity a stored
    /// binding resolved it to, if any. A match authenticates at once;
    /// otherwise the key is remembered and keyboard-interactive is
    /// advertised as the remaining method.
    pub fn auth_publickey(&mut self, key: PublicKey, bound: Option<Identity>) -> (r: Auth)
        ensures
            final(self).state == next_state(old(self).state, Op::OfferKey { key, bound }),
            bound is Some ==> r == Auth::Accept,
            bound is None ==> r == (Auth::Reject {
                proceed_with_methods: Some(Method::KeyboardInteractive),
            }),
    {
        match bound {
            Some(user) => {
                self.state.key_offered(key);
                self.state.authenticated(user, AuthMethod::PublicKey);
                Auth::Accept
            },
            None => {
                self.state.key_offered(key);
                Auth::Reject { proceed_with_methods: Some(Method::KeyboardInteractive) }
            },
        }
    }

    /// Which step this keyboard-interactive round takes: issue a fresh
    /// code, resolve the held one, or fail as a protocol violation.
    pub fn auth_keyboard_interactive(&self) -> (r: Result<KiStep, Error>)
        ensures
            r == ki_route(self.state),
    {
        match &self.state {
            State::Unauthenticated => Ok(KiStep::IssueCode),
            State::KeyOffered(_) => Ok(KiStep::IssueCode),
            State::CodeSent(..) => Ok(KiStep::ResolveCode),
            _ => Err(Error::ProtocolViolation),
        }
    }

    /// Hold a freshly issued device code and build the challenge for it:
    /// the verification URL both as a scannable rendering and as plain
    /// text, plus the re-poll instruction. Fails only if the URL does
    /// not fit in a QR code; the code is held either way.
    pub fn send_code(&mut self, code: DeviceCode) -> (r: Result<Auth, Error>)
        ensures
            final(self).state == next_state(old(self).state, Op::IssueCode { code }),
            r is Ok <==> qr_encodes(code.verification_uri_complete@),
            r matches Ok(a) ==> is_code_challenge(a, code.verification_uri_complete@),
            r matches Err(e) ==> e == Error::RenderError,
    {
        match qr_encode(code.verification_uri_complete.as_str()) {
            None => {
                self.state.code_sent(code);
                Err(Error::RenderError)
            },
            Some(qr_text) => {
                let name = String::from_str("Welcome to KubeRift");
                let instructions = String::from_str(
                    "\nLogin or scan the QRCode below to validate your identity:\n",
                );
                let mut prompt = String::from_str("\n");
                prompt.append(qr_text.as_str());
                prompt.append("\n\n");
                prompt.append(code.verification_uri_complete.as_str());
                prompt.append("\n\nPress Enter to continue");
                proof {
                    assert(prompt@ =~= challenge_prompt(code.verification_uri_complete@));
                }
                let mut prompts: Vec<(String, bool)> = Vec::new();
                prompts.push((prompt, false));
                self.state.code_sent(code);
                Ok(Auth::Partial { name, instructions, prompts })
            },
        }
    }

    /// Absorb the outcome of resolving the held device code. The code is
    /// consumed first, unconditionally — even a "not yet approved"
    /// answer spends it, and a later round must issue a fresh one. A
    /// resolved identity still needs its authorization checked; a
    /// pending answer re-prompts; anything else ends the attempt.
    pub fn authenticate_code(&mut self, resolution: Resolution) -> (r: Result<CodeStep, Error>)
        ensures
            final(self).state == next_state(old(self).state, Op::ResolveCode { resolution }),
            !(old(self).state is CodeSent) ==> r == Err::<CodeStep, Error>(
                Error::ProtocolViolation,
            ) && *final(self) == *old(self),
            old(self).state is CodeSent ==> match resolution {
                Resolution::Resolved(id) => r == Ok::<CodeStep, Error>(CodeStep::Authorize(id)),
                Resolution::Failed { http_status } => {
                    if http_status == Some(403u16) {
                        r matches Ok(s) && s matches CodeStep::Respond(a) && is_waiting_prompt(a)
                    } else {
                        r == Err::<CodeStep, Error>(Error::TransportError)
                    }
                },
            },
    {
        if !matches!(self.state, State::CodeSent(..)) {
            return Err(Error::ProtocolViolation);
        }
        self.state.code_used();
        match resolution {
            Resolution::Resolved(id) => Ok(CodeStep::Authorize(id)),
            Resolution::Failed { http_status } => match token_response(http_status) {
                Ok(a) => Ok(CodeStep::Respond(a)),
                Err(e) => Err(e),
            },
        }
    }

    /// Finish a device-code round with the authorization check's answer.
    /// An authorized identity authenticates the session; the key carried
    /// through the flow is handed back for a durable binding. An
    /// unauthorized one is rejected with no further method to try.
    pub fn code_authorized(&mut self, user: Option<Identity>) -> (r: (Auth, Option<PublicKey>))
        ensures
            final(self).state == next_state(old(self).state, Op::Authorized { user }),
            user is None ==> r == (
                (Auth::Reject { proceed_with_methods: None }),
                None::<PublicKey>,
            ) && *final(self) == *old(self),
            user is Some ==> r.0 == Auth::Accept && r.1 == offered_key(old(self).state),
    {
        match user {
            None => (Auth::Reject { proceed_with_methods: None }, None),
            Some(u) => {
                let mut tmp = State::Unauthenticated;
                core::mem::swap(&mut self.state, &mut tmp);
                let key = match tmp {
                    State::KeyOffered(k) => Some(k),
                    _ => None,
                };
                self.state.authenticated(u, AuthMethod::OpenId);
                (Auth::Accept, key)
            },
        }
    }

    /// The identity and method to record in the audit log once the
    /// transport reports the authentication round as succeeded.
    pub fn auth_succeeded(&self) -> (r: Result<(&Identity, AuthMethod), Error>)
        ensures
            self.state matches State::Authenticated(u, m) ==> (r matches Ok(p) && *p.0 == u
                && p.1 == m),
            !(self.state is Authenticated) ==> (r matches Err(e) && e == Error::ProtocolViolation),
    {
        match &self.state {
            State::Authenticated(user, method) => Ok((user, *method)),
            _ => Err(Error::ProtocolViolation),
        }
    }

    /// A PTY was requested: only an authenticated session gets a
    /// dashboard. Hands out the channel, the identity to bind the
    /// dashboard to and the initial resize event, and moves to the
    /// terminal `PtyStarted` state.
    pub fn pty_request(&mut self, id: u64, cx: u32, cy: u32, px: u32, py: u32) -> (r: Result<
        PtyStart,
        Error,
    >)
        ensures
            final(self).state == next_state(old(self).state, Op::PtyRequest { id }),
            old(self).state matches State::Authenticated(u, m) ==> (r matches Ok(p) && p.channel
                == (Channel { id }) && p.user == u && p.resize == Event::Resize(
                window_size_of(cx, cy, px, py),
            )),
            !(old(self).state is Authenticated) ==> (r matches Err(e) && e
                == Error::ProtocolViolation && *final(self) == *old(self)),
    {
        if !matches!(self.state, State::Authenticated(..)) {
            return Err(Error::ProtocolViolation);
        }
        let mut tmp = State::Unauthenticated;
        core::mem::swap(&mut self.state, &mut tmp);
        let user = match tmp {
            State::Authenticated(u, _) => u,
            _ => {
                proof {
                    assert(false);
                }
                return Err(Error::ProtocolViolation);
            },
        };
        let channel = Channel { id };
        self.state.pty_started(channel);
        Ok(PtyStart { channel, user, resize: resize_event(cx, cy, px, py) })
    }

    /// Channel data is forwarded verbatim to the dashboard's channel,
    /// and only while the PTY is started.
    pub fn data(&self, data: Vec<u8>) -> (r: Result<Forward, Error>)
        ensures
            self.state matches State::PtyStarted(ch) ==> (r matches Ok(f) && f.channel == ch
                && f.bytes == data),
            !(self.state is PtyStarted) ==> (r matches Err(e) && e == Error::ProtocolViolation),
    {
        match &self.state {
            State::PtyStarted(ch) => Ok(Forward { channel: *ch, bytes: data }),
            _ => Err(Error::ProtocolViolation),
        }
    }

    /// A window change is forwarded as a resize event carrying exactly
    /// the requested size, without touching the session state; outside
    /// `PtyStarted` it is ignored.
    pub fn window_change_request(&self, cx: u32, cy: u32, px: u32, py: u32) -> (r: Option<Event>)
        ensures
            self.state is PtyStarted ==> r == Some(
                Event::Resize(window_size_of(cx, cy, px, py)),
            ),
            !(self.state is PtyStarted) ==> r is None,
    {
        if matches!(self.state, State::PtyStarted(..)) {
            Some(resize_event(cx, cy, px, py))
        } else {
            None
        }
    }

    /// The channel to stop when the client closes it: the dashboard's
    /// own channel while the PTY is started, nothing otherwise.
    pub fn channel_close(&self) -> (r: Option<Channel>)
        ensures
            self.state matches State::PtyStarted(ch) ==> r == Some(ch),
            !(self.state is PtyStarted) ==> r is None,
    {
        match &self.state {
            State::PtyStarted(ch) => Some(*ch),
            _ => None,
        }
    }
}

/// Law: the terminal `PtyStarted` state is entered only from an
/// `Authenticated` state, and only by a PTY request.
pub proof fn lemma_pty_only_from_authenticated(s: State, op: Op)
    ensures
        next_state(s, op) is PtyStarted && !(s is PtyStarted) ==> s is Authenticated
            && op is PtyRequest,
{
}

/// Law: a session becomes authenticated only through an operation that
/// answered the client with Accept — a key that matched a stored
/// binding, or a resolved identity that passed authorization.
pub proof fn lemma_authenticated_only_by_accept(s: State, op: Op)
    ensures
        next_state(s, op) is Authenticated && !(s is Authenticated) ==> accepts(op),
{
}

/// Law: across any two consecutive operations, the dashboard state is
/// reached only by a PTY request made immediately after the machine was
/// authenticated — and if that authentication was produced by the first
/// of the two operations, that operation answered Accept.
pub proof fn lemma_pty_follows_accept(s0: State, op1: Op, op2: Op)
    ensures
        ({
            let s1 = next_state(s0, op1);
            let s2 = next_state(s1, op2);
            (s2 is PtyStarted && !(s1 is PtyStarted)) ==> (s1 is Authenticated && op2 is PtyRequest
                && (!(s0 is Authenticated) ==> accepts(op1)))
        }),
{
}

/// Law: a device code is single use. Passing it through resolution
/// leaves `CodeSent`, whatever the outcome was, and a `CodeSent` state
/// is only ever entered by issuing a fresh code.
pub proof fn lemma_code_single_use(s: State, resolution: Resolution)
    ensures
        !(next_state(s, Op::ResolveCode { resolution }) is CodeSent),
        forall|op: Op|
            !(s is CodeSent) && #[trigger] next_state(s, op) is CodeSent ==> op is IssueCode,
{
}

/// Law: rollback preserves identity. A key offered before the
/// device-code flow is retained through the code's consumption, whatever
/// the resolution outcome, is carried into the next issued code, and is
/// still the key available for a durable binding.
pub proof fn lemma_rollback_retains_key(
    k: PublicKey,
    c1: DeviceCode,
    c2: DeviceCode,
    resolution: Resolution,
)
    ensures
        ({
            let s1 = next_state(State::KeyOffered(k), Op::IssueCode { code: c1 });
            let s2 = next_state(s1, Op::ResolveCode { resolution });
            let s3 = next_state(s2, Op::IssueCode { code: c2 });
            &&& s1 == State::CodeSent(c1, Some(k))
            &&& s2 == State::KeyOffered(k)
            &&& s3 == State::CodeSent(c2, Some(k))
            &&& offered_key(s2) == Some(k)
        }),
{
}

} // verus!
