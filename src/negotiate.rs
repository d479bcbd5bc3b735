use vstd::prelude::*;

verus! {

/// The code that asks a server to upgrade the connection to an encrypted one.
pub const SSL_REQUEST_CODE: u32 = 80877103;

/// The length of the upgrade request frame, length field included.
pub const SSL_REQUEST_LEN: u32 = 8;

/// The byte by which a server declines encryption, ASCII `N`.
pub const DECLINE_BYTE: u8 = 78;

/// The four bytes of `v`, most significant first.
pub open spec fn be_bytes(v: u32) -> Seq<u8> {
    seq![
        (v / 0x100_0000) as u8,
        ((v / 0x1_0000) % 0x100) as u8,
        ((v / 0x100) % 0x100) as u8,
        (v % 0x100) as u8,
    ]
}

/// The number that four bytes, most significant first, stand for.
pub open spec fn be_value(b: Seq<u8>) -> int {
    b[0] * 0x100_0000 + b[1] * 0x1_0000 + b[2] * 0x100 + b[3]
}

/// The upgrade request: its length, then the request code, both as
/// big-endian 32-bit numbers.
pub open spec fn ssl_request_frame() -> Seq<u8> {
    be_bytes(SSL_REQUEST_LEN) + be_bytes(SSL_REQUEST_CODE)
}

/// Builds the upgrade request frame.
pub fn ssl_request() -> (r: Vec<u8>)
    ensures
        r@ == ssl_request_frame(),
{
    let r: Vec<u8> = vec![0u8, 0, 0, 8, 4, 210, 22, 47];
    assert(r@ =~= ssl_request_frame());
    r
}

/// The upgrade request is eight bytes long, whatever the transport: a
/// big-endian length field holding eight, then the big-endian request code.
pub proof fn lemma_ssl_request_layout()
    ensures
        ssl_request_frame().len() == 8,
        be_value(ssl_request_frame().subrange(0, 4)) == 8,
        be_value(ssl_request_frame().subrange(4, 8)) == SSL_REQUEST_CODE,
{
    assert(ssl_request_frame().subrange(0, 4) =~= seq![0u8, 0, 0, 8]);
    assert(ssl_request_frame().subrange(4, 8) =~= seq![4u8, 210, 22, 47]);
}

/// How much encryption the caller asks for. `C` is the encryption context
/// (trust and verification settings), which only the handshake reads.
pub enum SslMode<C> {
    /// Never encrypt.
    NoSsl,
    /// Encrypt where the server agrees, else go on in plain text.
    PreferSsl(C),
    /// Encrypt, or fail.
    RequireSsl(C),
}

/// The part of an [`SslMode`] that the negotiation decides on.
#[derive(Clone, Copy, PartialEq, Eq, Structural, Debug)]
pub enum Policy {
    Disabled,
    Preferred,
    Required,
}

impl<C> SslMode<C> {
    /// The policy that this mode stands for.
    pub open spec fn policy_of(&self) -> Policy {
        match self {
            SslMode::NoSsl => Policy::Disabled,
            SslMode::PreferSsl(_) => Policy::Preferred,
            SslMode::RequireSsl(_) => Policy::Required,
        }
    }

    /// The negotiation policy of this mode.
    pub fn policy(&self) -> (r: Policy)
        ensures
            r == self.policy_of(),
    {
        match self {
            SslMode::NoSsl => Policy::Disabled,
            SslMode::PreferSsl(_) => Policy::Preferred,
            SslMode::RequireSsl(_) => Policy::Required,
        }
    }
}

/// Where a connection attempt stands.
#[derive(Clone, Copy, PartialEq, Eq, Structural, Debug)]
pub enum Phase {
    /// The transport is being opened.
    Opening,
    /// The upgrade request is being written and flushed.
    Requesting,
    /// The server's one-byte answer is being read.
    AwaitingResponse,
    /// The encryption handshake is running.
    Handshaking,
    /// The attempt is over.
    Finished,
}

/// What the last piece of outside work came to.
#[derive(Clone, Copy, PartialEq, Eq, Structural, Debug)]
pub enum Event {
    /// It succeeded: the transport opened, the request went out, or the
    /// handshake completed.
    Succeeded,
    /// It failed.
    Failed,
    /// The server answered the upgrade request with this byte.
    Response(u8),
}

/// Why a connection attempt ended without a stream.
#[derive(Clone, Copy, PartialEq, Eq, Structural, Debug)]
pub enum Failure {
    /// The transport could not be opened.
    SocketError,
    /// Writing the request, flushing it, or reading the answer failed.
    Io,
    /// Encryption was required and the server declined it.
    EncryptionUnsupported,
    /// The encryption handshake failed.
    EncryptionHandshakeFailed,
}

/// The next thing to do.
#[derive(Clone, Copy, PartialEq, Eq, Structural, Debug)]
pub enum Action {
    /// Write the upgrade request frame and flush it.
    SendRequest,
    /// Read exactly one byte.
    ReadResponse,
    /// Run the encryption handshake on the transport.
    Handshake,
    /// Done: hand out the transport as a plain stream.
    UsePlain,
    /// Done: hand out the encrypted stream.
    UseEncrypted,
    /// Done: the attempt failed.
    Fail(Failure),
}

/// The state of one connection attempt.
#[derive(Clone, Copy, PartialEq, Eq, Structural, Debug)]
pub struct Negotiation {
    pub policy: Policy,
    pub phase: Phase,
}

impl Negotiation {
    /// The state before the transport is opened.
    pub open spec fn initial(policy: Policy) -> Negotiation {
        Negotiation { policy, phase: Phase::Opening }
    }

    /// Whether `e` can be the outcome of the work that this state asked
    /// for: a response byte only while one is awaited, and nothing once the
    /// attempt is over.
    pub open spec fn accepts(self, e: Event) -> bool {
        self.phase != Phase::Finished && ((e is Response) ==> self.phase
            == Phase::AwaitingResponse)
    }

    /// This state, ended, with `a` as the last action.
    pub open spec fn finish(self, a: Action) -> (Negotiation, Action) {
        (Negotiation { phase: Phase::Finished, ..self }, a)
    }

    /// The state that `e` leads to, and what to do there. A response other
    /// than the decline byte counts as acceptance.
    pub open spec fn next(self, e: Event) -> (Negotiation, Action) {
        match (self.phase, e) {
            (Phase::Opening, Event::Failed) => self.finish(Action::Fail(Failure::SocketError)),
            (Phase::Opening, _) => if self.policy == Policy::Disabled {
                self.finish(Action::UsePlain)
            } else {
                (Negotiation { phase: Phase::Requesting, ..self }, Action::SendRequest)
            },
            (Phase::Requesting, Event::Failed) => self.finish(Action::Fail(Failure::Io)),
            (Phase::Requesting, _) => (
                Negotiation { phase: Phase::AwaitingResponse, ..self },
                Action::ReadResponse,
            ),
            (Phase::AwaitingResponse, Event::Response(b)) => if b != DECLINE_BYTE {
                (Negotiation { phase: Phase::Handshaking, ..self }, Action::Handshake)
            } else if self.policy == Policy::Required {
                self.finish(Action::Fail(Failure::EncryptionUnsupported))
            } else {
                self.finish(Action::UsePlain)
            },
            (Phase::AwaitingResponse, _) => self.finish(Action::Fail(Failure::Io)),
            (Phase::Handshaking, Event::Failed) => self.finish(
                Action::Fail(Failure::EncryptionHandshakeFailed),
            ),
            (Phase::Handshaking, _) => self.finish(Action::UseEncrypted),
            (Phase::Finished, _) => (self, Action::Fail(Failure::Io)),
        }
    }

    /// Starts an attempt under `policy`; the first thing to do is to open
    /// the transport.
    pub fn new(policy: Policy) -> (r: Negotiation)
        ensures
            r == Negotiation::initial(policy),
    {
        Negotiation { policy, phase: Phase::Opening }
    }

    /// Whether the attempt is over.
    pub fn is_finished(&self) -> (r: bool)
        ensures
            r == (self.phase == Phase::Finished),
    {
        self.phase == Phase::Finished
    }

    /// Takes in the outcome of the last piece of work and returns what to do
    /// next.
    pub fn step(&mut self, e: Event) -> (r: Action)
        requires
            old(self).accepts(e),
        ensures
            (*final(self), r) == old(self).next(e),
    {
        match (self.phase, e) {
            (Phase::Opening, Event::Failed) => {
                self.phase = Phase::Finished;
                Action::Fail(Failure::SocketError)
            },
            (Phase::Opening, _) => {
                if self.policy == Policy::Disabled {
                    self.phase = Phase::Finished;
                    Action::UsePlain
                } else {
                    self.phase = Phase::Requesting;
                    Action::SendRequest
                }
            },
            (Phase::Requesting, Event::Failed) => {
                self.phase = Phase::Finished;
                Action::Fail(Failure::Io)
            },
            (Phase::Requesting, _) => {
                self.phase = Phase::AwaitingResponse;
                Action::ReadResponse
            },
            (Phase::AwaitingResponse, Event::Response(b)) => {
                if b != DECLINE_BYTE {
                    self.phase = Phase::Handshaking;
                    Action::Handshake
                } else if self.policy == Policy::Required {
                    self.phase = Phase::Finished;
                    Action::Fail(Failure::EncryptionUnsupported)
                } else {
                    self.phase = Phase::Finished;
                    Action::UsePlain
                }
            },
            (Phase::AwaitingResponse, _) => {
                self.phase = Phase::Finished;
                Action::Fail(Failure::Io)
            },
            (Phase::Handshaking, Event::Failed) => {
                self.phase = Phase::Finished;
                Action::Fail(Failure::EncryptionHandshakeFailed)
            },
            (Phase::Handshaking, _) => {
                self.phase = Phase::Finished;
                Action::UseEncrypted
            },
            (Phase::Finished, _) => Action::Fail(Failure::Io),
        }
    }
}

/// The actions taken, in order, when the outcomes `events` are fed one by one
/// to an attempt in state `n`; feeding stops at the first outcome that the
/// state does not accept, and in particular once the attempt is over.
pub open spec fn run(n: Negotiation, events: Seq<Event>) -> Seq<Action>
    decreases events.len(),
{
    if events.len() == 0 || !n.accepts(events[0]) {
        Seq::empty()
    } else {
        seq![n.next(events[0]).1] + run(n.next(events[0]).0, events.drop_first())
    }
}

/// The actions of a whole attempt under `policy`, from the opening of the
/// transport on.
pub open spec fn attempt(policy: Policy, events: Seq<Event>) -> Seq<Action> {
    run(Negotiation::initial(policy), events)
}

/// One step of a run.
proof fn lemma_run_cons(n: Negotiation, e: Event, rest: Seq<Event>)
    ensures
        run(n, seq![e] + rest) == (if n.accepts(e) {
            seq![n.next(e).1] + run(n.next(e).0, rest)
        } else {
            Seq::<Action>::empty()
        }),
{
    assert((seq![e] + rest)[0] == e);
    assert((seq![e] + rest).drop_first() =~= rest);
}

/// An attempt that is over takes no further action.
proof fn lemma_run_finished(n: Negotiation, events: Seq<Event>)
    requires
        n.phase == Phase::Finished,
    ensures
        run(n, events) == Seq::<Action>::empty(),
{
}

/// The events of an attempt whose transport opened, whose request went out
/// and whose server answered `b`.
pub open spec fn answered(b: u8, rest: Seq<Event>) -> Seq<Event> {
    seq![Event::Succeeded, Event::Succeeded, Event::Response(b)] + rest
}

/// The request and read that precede any answer from the server.
proof fn lemma_run_answered(policy: Policy, b: u8, rest: Seq<Event>)
    requires
        policy != Policy::Disabled,
    ensures
        attempt(policy, answered(b, rest)) == seq![Action::SendRequest, Action::ReadResponse]
            + run(Negotiation { policy, phase: Phase::AwaitingResponse }, seq![Event::Response(b)] + rest),
{
    let n0 = Negotiation::initial(policy);
    let n1 = Negotiation { policy, phase: Phase::Requesting };
    let n2 = Negotiation { policy, phase: Phase::AwaitingResponse };
    let tail = seq![Event::Response(b)] + rest;
    assert(answered(b, rest) =~= seq![Event::Succeeded] + (seq![Event::Succeeded] + tail));
    lemma_run_cons(n0, Event::Succeeded, seq![Event::Succeeded] + tail);
    lemma_run_cons(n1, Event::Succeeded, tail);
    assert(seq![Action::SendRequest] + (seq![Action::ReadResponse] + run(n2, tail)) =~= seq![
        Action::SendRequest,
        Action::ReadResponse,
    ] + run(n2, tail));
}

/// A transport that cannot be opened ends the attempt with a socket error,
/// whatever the policy, and nothing else is done.
pub proof fn lemma_open_failure(policy: Policy, rest: Seq<Event>)
    ensures
        attempt(policy, seq![Event::Failed] + rest) == seq![Action::Fail(Failure::SocketError)],
{
    let n0 = Negotiation::initial(policy);
    lemma_run_cons(n0, Event::Failed, rest);
    lemma_run_finished(n0.next(Event::Failed).0, rest);
    assert(seq![Action::Fail(Failure::SocketError)] + Seq::<Action>::empty() =~= seq![
        Action::Fail(Failure::SocketError),
    ]);
}

/// With encryption disabled, an opened transport is handed out plain at
/// once: no request is sent, nothing is read, no handshake is run.
pub proof fn lemma_disabled_sends_nothing(rest: Seq<Event>)
    ensures
        attempt(Policy::Disabled, seq![Event::Succeeded] + rest) == seq![Action::UsePlain],
{
    let n0 = Negotiation::initial(Policy::Disabled);
    lemma_run_cons(n0, Event::Succeeded, rest);
    lemma_run_finished(n0.next(Event::Succeeded).0, rest);
    assert(seq![Action::UsePlain] + Seq::<Action>::empty() =~= seq![Action::UsePlain]);
}

/// When encryption is required and the server declines it, the attempt
/// fails as unsupported, with no handshake.
pub proof fn lemma_required_declined(rest: Seq<Event>)
    ensures
        attempt(Policy::Required, answered(DECLINE_BYTE, rest)) == seq![
            Action::SendRequest,
            Action::ReadResponse,
            Action::Fail(Failure::EncryptionUnsupported),
        ],
{
    let n2 = Negotiation { policy: Policy::Required, phase: Phase::AwaitingResponse };
    lemma_run_answered(Policy::Required, DECLINE_BYTE, rest);
    lemma_run_cons(n2, Event::Response(DECLINE_BYTE), rest);
    lemma_run_finished(n2.next(Event::Response(DECLINE_BYTE)).0, rest);
    assert(seq![Action::SendRequest, Action::ReadResponse] + (seq![
        Action::Fail(Failure::EncryptionUnsupported),
    ] + Seq::<Action>::empty()) =~= seq![
        Action::SendRequest,
        Action::ReadResponse,
        Action::Fail(Failure::EncryptionUnsupported),
    ]);
}

/// When encryption is preferred and the server declines it, the transport
/// is handed out plain, with no handshake.
pub proof fn lemma_preferred_declined(rest: Seq<Event>)
    ensures
        attempt(Policy::Preferred, answered(DECLINE_BYTE, rest)) == seq![
            Action::SendRequest,
            Action::ReadResponse,
            Action::UsePlain,
        ],
{
    let n2 = Negotiation { policy: Policy::Preferred, phase: Phase::AwaitingResponse };
    lemma_run_answered(Policy::Preferred, DECLINE_BYTE, rest);
    lemma_run_cons(n2, Event::Response(DECLINE_BYTE), rest);
    lemma_run_finished(n2.next(Event::Response(DECLINE_BYTE)).0, rest);
    assert(seq![Action::SendRequest, Action::ReadResponse] + (seq![Action::UsePlain]
        + Seq::<Action>::empty()) =~= seq![
        Action::SendRequest,
        Action::ReadResponse,
        Action::UsePlain,
    ]);
}

/// When the server answers anything but the decline byte, exactly one
/// handshake runs; its success gives the encrypted stream, and its failure
/// fails the attempt, never falling back to plain text.
pub proof fn lemma_accepted_handshakes_once(
    policy: Policy,
    b: u8,
    handshake: Event,
    rest: Seq<Event>,
)
    requires
        policy != Policy::Disabled,
        b != DECLINE_BYTE,
        !(handshake is Response),
    ensures
        attempt(policy, answered(b, seq![handshake] + rest)) == seq![
            Action::SendRequest,
            Action::ReadResponse,
            Action::Handshake,
            if handshake == Event::Succeeded {
                Action::UseEncrypted
            } else {
                Action::Fail(Failure::EncryptionHandshakeFailed)
            },
        ],
{
    let n2 = Negotiation { policy, phase: Phase::AwaitingResponse };
    let n3 = Negotiation { policy, phase: Phase::Handshaking };
    let last = if handshake == Event::Succeeded {
        Action::UseEncrypted
    } else {
        Action::Fail(Failure::EncryptionHandshakeFailed)
    };
    lemma_run_answered(policy, b, seq![handshake] + rest);
    lemma_run_cons(n2, Event::Response(b), seq![handshake] + rest);
    lemma_run_cons(n3, handshake, rest);
    lemma_run_finished(n3.next(handshake).0, rest);
    assert(seq![Action::SendRequest, Action::ReadResponse] + (seq![Action::Handshake] + (seq![
        last,
    ] + Seq::<Action>::empty())) =~= seq![
        Action::SendRequest,
        Action::ReadResponse,
        Action::Handshake,
        last,
    ]);
}

} // verus!
