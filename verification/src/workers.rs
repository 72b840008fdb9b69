//! One turn of each of the three workers.
//!
//! A worker alternates between waiting (for a packet, a datagram, a job) and
//! deciding. The waiting belongs to the embedding program. Each function
//! here is the deciding part of one turn: it takes what the wait brought and
//! returns what is to be done about it.

use vstd::prelude::*;
use std::sync::atomic::AtomicUsize;
use x25519_dalek::PublicKey;
use crate::constants::CAPACITY_MESSAGE_POSTFIX;
use crate::constants::MAX_HANDSHAKE_MSG_SIZE;
use crate::constants::MESSAGE_PADDING_MULTIPLE;
use crate::constants::SIZE_MESSAGE_PREFIX;
use crate::load::signal_of;
use crate::load::LoadSignal;
use crate::load::LoadWatch;
use crate::padding::padded_len;
use crate::padding::padding;
use crate::shared::count_pending;
use crate::shared::drain_pending;
use crate::shared::UnderLoad;
use crate::wire::classify;
use crate::wire::kind_of;
use crate::wire::MessageKind;

verus! {

/// A Curve25519 public key, as `x25519_dalek` holds it. The workers pass it
/// on and never look inside.
#[verifier::external_type_specification]
#[verifier::external_body]
pub struct ExPublicKey(x25519_dalek::PublicKey);

/// The first `n` items of `s`, or all of `s` where it has fewer.
pub open spec fn truncated<T>(s: Seq<T>, n: int) -> Seq<T> {
    if 0 <= n <= s.len() {
        s.take(n)
    } else {
        s
    }
}

/// The size of the buffer into which the TUN worker reads one packet: room
/// for the transport header, a packet of one byte more than the MTU, and the
/// authentication tag.
pub open spec fn tun_buffer_len(mtu: int) -> int {
    mtu + SIZE_MESSAGE_PREFIX + 1 + CAPACITY_MESSAGE_POSTFIX
}

/// What the TUN worker does with one read from the device.
#[derive(Debug, PartialEq, Eq)]
pub enum TunAction<X> {
    /// The read failed with this error: the worker stops.
    Exit(X),
    /// The device is down: the packet is dropped.
    Drop,
    /// The message goes to the router: header room, then the padded packet.
    Send(Vec<u8>),
}

/// A `TunAction` with the message as a sequence of bytes.
pub enum TunActionView<X> {
    Exit(X),
    Drop,
    Send(Seq<u8>),
}

impl<X> View for TunAction<X> {
    type V = TunActionView<X>;

    open spec fn view(&self) -> TunActionView<X> {
        match *self {
            TunAction::Exit(e) => TunActionView::Exit(e),
            TunAction::Drop => TunActionView::Drop,
            TunAction::Send(msg) => TunActionView::Send(msg@),
        }
    }
}

/// What the TUN worker does when the read into `msg`, at the offset of the
/// header room, ended in `read`.
pub open spec fn tun_step<X>(mtu: usize, msg: Seq<u8>, read: Result<usize, X>) -> TunActionView<X> {
    match read {
        Err(e) => TunActionView::Exit(e),
        Ok(payload) => if mtu == 0 {
            TunActionView::Drop
        } else {
            TunActionView::Send(
                truncated(msg, SIZE_MESSAGE_PREFIX + padded_len(payload as int, mtu as int)),
            )
        },
    }
}

/// A zeroed buffer for the TUN worker's next read.
pub fn tun_buffer(mtu: usize) -> (msg: Vec<u8>)
    requires
        tun_buffer_len(mtu as int) <= usize::MAX,
    ensures
        msg@.len() == tun_buffer_len(mtu as int),
        forall|i: int| 0 <= i < msg@.len() ==> msg@[i] == 0,
{
    let size: usize = mtu + SIZE_MESSAGE_PREFIX + 1;
    let msg: Vec<u8> = vec![0u8; size + CAPACITY_MESSAGE_POSTFIX];
    msg
}

/// One turn of the TUN worker: `msg` is the buffer that the packet was read
/// into, behind the header room, and `read` the packet's length or the
/// error of the read.
pub fn tun_worker<X>(mtu: usize, msg: Vec<u8>, read: Result<usize, X>) -> (action: TunAction<X>)
    ensures
        action@ == tun_step(mtu, msg@, read),
{
    let payload: usize = match read {
        Ok(payload) => payload,
        Err(e) => {
            return TunAction::Exit(e);
        },
    };
    if mtu == 0 {
        return TunAction::Drop;
    }
    let padded: usize = padding(payload, mtu);
    let ghost whole = msg@;
    let mut msg = msg;
    msg.truncate(SIZE_MESSAGE_PREFIX.saturating_add(padded));
    assert(msg@ =~= truncated(whole, SIZE_MESSAGE_PREFIX + padded));
    TunAction::Send(msg)
}

/// A packet read into a buffer of the TUN worker's size leaves as the header
/// room and at most an MTU of payload, whose length is the MTU or a multiple
/// of the padding unit.
pub proof fn lemma_tun_frame<X>(mtu: usize, msg: Seq<u8>, payload: usize)
    requires
        mtu > 0,
        msg.len() == tun_buffer_len(mtu as int),
    ensures
        tun_step::<X>(mtu, msg, Ok(payload)) matches TunActionView::Send(frame) && {
            let body = frame.len() - SIZE_MESSAGE_PREFIX;
            &&& frame == msg.take(frame.len() as int)
            &&& body == padded_len(payload as int, mtu as int)
            &&& 0 <= body <= mtu
            &&& body == mtu || body % (MESSAGE_PADDING_MULTIPLE as int) == 0
        },
{
}

/// Work for the handshake workers.
#[derive(Debug, PartialEq, Eq)]
pub enum HandshakeJob<E> {
    /// A handshake message that arrived from the given endpoint.
    Message(Vec<u8>, E),
    /// A handshake that this device is to begin with the peer of this key.
    New(PublicKey),
}

/// A `HandshakeJob` with the message as a sequence of bytes.
pub enum HandshakeJobView<E> {
    Message(Seq<u8>, E),
    New(PublicKey),
}

impl<E> View for HandshakeJob<E> {
    type V = HandshakeJobView<E>;

    open spec fn view(&self) -> HandshakeJobView<E> {
        match *self {
            HandshakeJob::Message(msg, src) => HandshakeJobView::Message(msg@, src),
            HandshakeJob::New(pk) => HandshakeJobView::New(pk),
        }
    }
}

/// The size of the buffer into which the UDP worker receives one datagram:
/// a transport message of a full MTU, or any handshake message.
pub open spec fn udp_buffer_len(mtu: int) -> int {
    mtu + MAX_HANDSHAKE_MSG_SIZE
}

/// What the UDP worker does with one read from the bind.
#[derive(Debug, PartialEq, Eq)]
pub enum UdpAction<E, X> {
    /// The read failed with this error: the worker stops.
    Exit(X),
    /// The device is down or the datagram is none of the protocol's: it is
    /// dropped.
    Drop,
    /// A handshake message: it is counted as pending and queued for the
    /// handshake workers, as a `HandshakeJob::Message`.
    Enqueue(HandshakeJob<E>),
    /// A transport message: it goes to the router, with its source.
    Receive(E, Vec<u8>),
}

/// A `UdpAction` with the datagram as a sequence of bytes.
pub enum UdpActionView<E, X> {
    Exit(X),
    Drop,
    Enqueue(HandshakeJobView<E>),
    Receive(E, Seq<u8>),
}

impl<E, X> View for UdpAction<E, X> {
    type V = UdpActionView<E, X>;

    open spec fn view(&self) -> UdpActionView<E, X> {
        match *self {
            UdpAction::Exit(e) => UdpActionView::Exit(e),
            UdpAction::Drop => UdpActionView::Drop,
            UdpAction::Enqueue(job) => UdpActionView::Enqueue(job@),
            UdpAction::Receive(src, msg) => UdpActionView::Receive(src, msg@),
        }
    }
}

/// What the UDP worker does when the read into `msg` ended in `read`: an
/// error, or the datagram's length and its source.
pub open spec fn demux_spec<E, X>(mtu: usize, msg: Seq<u8>, read: Result<(usize, E), X>)
    -> UdpActionView<E, X> {
    match read {
        Err(e) => UdpActionView::Exit(e),
        Ok((size, src)) => {
            let datagram = truncated(msg, size as int);
            if mtu == 0 {
                UdpActionView::Drop
            } else {
                match kind_of(datagram) {
                    MessageKind::Handshake => UdpActionView::Enqueue(
                        HandshakeJobView::Message(datagram, src),
                    ),
                    MessageKind::Transport => UdpActionView::Receive(src, datagram),
                    MessageKind::Unknown => UdpActionView::Drop,
                }
            }
        },
    }
}

/// A zeroed buffer for the UDP worker's next read.
pub fn udp_buffer(mtu: usize) -> (msg: Vec<u8>)
    requires
        udp_buffer_len(mtu as int) <= usize::MAX,
    ensures
        msg@.len() == udp_buffer_len(mtu as int),
        forall|i: int| 0 <= i < msg@.len() ==> msg@[i] == 0,
{
    let msg: Vec<u8> = vec![0u8; mtu + MAX_HANDSHAKE_MSG_SIZE];
    msg
}

/// Tells what is to be done with one datagram, going by the device's MTU
/// and the datagram's type tag.
pub fn demux<E, X>(mtu: usize, msg: Vec<u8>, read: Result<(usize, E), X>) -> (action: UdpAction<
    E,
    X,
>)
    ensures
        action@ == demux_spec(mtu, msg@, read),
{
    let (size, src) = match read {
        Ok(v) => v,
        Err(e) => {
            return UdpAction::Exit(e);
        },
    };
    let ghost whole = msg@;
    let mut msg = msg;
    msg.truncate(size);
    assert(msg@ =~= truncated(whole, size as int));
    if mtu == 0 {
        return UdpAction::Drop;
    }
    match classify(msg.as_slice()) {
        MessageKind::Handshake => UdpAction::Enqueue(HandshakeJob::Message(msg, src)),
        MessageKind::Transport => UdpAction::Receive(src, msg),
        MessageKind::Unknown => UdpAction::Drop,
    }
}

/// One turn of the UDP worker: `msg` is the buffer that the datagram was
/// received into and `read` what the receive returned; `now` is the time in
/// milliseconds of a monotonic clock.
///
/// A handshake message is counted in `pending`, and what the counter then
/// holds decides over the load: above the threshold the worker's record moves
/// to `now` and the device's flag goes up.
pub fn udp_worker<E, X>(
    watch: &mut LoadWatch,
    pending: &AtomicUsize,
    load: &UnderLoad,
    now: u64,
    mtu: usize,
    msg: Vec<u8>,
    read: Result<(usize, E), X>,
) -> (action: UdpAction<E, X>)
    ensures
        action@ == demux_spec(mtu, msg@, read),
        !(action@ is Enqueue) ==> final(watch).last() == old(watch).last(),
        action@ is Enqueue ==> exists|previous: usize|
            final(watch).last() == if #[trigger] signal_of(old(watch).last(), previous, now)
                == LoadSignal::Raise {
                now
            } else {
                old(watch).last()
            },
{
    let action = demux(mtu, msg, read);
    if let UdpAction::Enqueue(_) = &action {
        let previous: usize = count_pending(pending);
        let signal = watch.observe(previous, now);
        if signal == LoadSignal::Raise {
            load.raise(now);
        }
    }
    action
}

/// What a handshake worker asks of the handshake engine for one job.
#[derive(Debug, PartialEq, Eq)]
pub enum HandshakeStep<E> {
    /// The engine is to process `msg`, which came from `src`. With
    /// `validate` set the device is under load, and the engine is given the
    /// address of `src` to check the message's cookie against.
    Process { msg: Vec<u8>, src: E, validate: bool },
    /// The peer of this key is to be looked up, and the engine is to begin a
    /// handshake with it.
    Begin { pk: PublicKey },
}

/// A `HandshakeStep` with the message as a sequence of bytes.
pub enum HandshakeStepView<E> {
    Process { msg: Seq<u8>, src: E, validate: bool },
    Begin { pk: PublicKey },
}

impl<E> View for HandshakeStep<E> {
    type V = HandshakeStepView<E>;

    open spec fn view(&self) -> HandshakeStepView<E> {
        match *self {
            HandshakeStep::Process { msg, src, validate } => HandshakeStepView::Process {
                msg: msg@,
                src,
                validate,
            },
            HandshakeStep::Begin { pk } => HandshakeStepView::Begin { pk },
        }
    }
}

/// What is asked of the engine for `job` on a device that is under load or
/// not.
pub open spec fn dispatch_spec<E>(job: HandshakeJobView<E>, under_load: bool) -> HandshakeStepView<
    E,
> {
    match job {
        HandshakeJobView::Message(msg, src) => HandshakeStepView::Process {
            msg,
            src,
            validate: under_load,
        },
        HandshakeJobView::New(pk) => HandshakeStepView::Begin { pk },
    }
}

/// Tells what a job asks of the engine.
pub fn dispatch<E>(job: HandshakeJob<E>, under_load: bool) -> (step: HandshakeStep<E>)
    ensures
        step@ == dispatch_spec(job@, under_load),
{
    match job {
        HandshakeJob::Message(msg, src) => HandshakeStep::Process { msg, src, validate: under_load },
        HandshakeJob::New(pk) => HandshakeStep::Begin { pk },
    }
}

/// One turn of a handshake worker, up to the call of the engine: `job` has
/// just been taken from the queue. It is counted out of `pending`, whatever
/// it is. For a message the device's under-load flag is read, after it has
/// lapsed if it was raised too long before `now`.
pub fn handshake_worker<E>(
    pending: &AtomicUsize,
    load: &UnderLoad,
    now: u64,
    job: HandshakeJob<E>,
) -> (step: HandshakeStep<E>)
    ensures
        exists|under_load: bool| step@ == #[trigger] dispatch_spec(job@, under_load),
{
    drain_pending(pending);
    match job {
        HandshakeJob::Message(msg, src) => {
            let under_load: bool = load.lapse(now);
            dispatch(HandshakeJob::Message(msg, src), under_load)
        },
        HandshakeJob::New(pk) => dispatch(HandshakeJob::New(pk), false),
    }
}

/// What the engine made of a handshake message that it accepted.
#[derive(Debug, PartialEq, Eq)]
pub struct Processed<K> {
    /// Whether the engine named the sender and the device has a peer of
    /// that key.
    pub peer_known: bool,
    /// The reply to send, if any: a handshake response or a cookie reply.
    pub response: Option<Vec<u8>>,
    /// The key pair that the message completed, if any.
    pub keypair: Option<K>,
}

/// A `Processed` with the reply as a sequence of bytes.
pub struct ProcessedView<K> {
    pub peer_known: bool,
    pub response: Option<Seq<u8>>,
    pub keypair: Option<K>,
}

impl<K> View for Processed<K> {
    type V = ProcessedView<K>;

    open spec fn view(&self) -> ProcessedView<K> {
        ProcessedView {
            peer_known: self.peer_known,
            response: match self.response {
                Some(msg) => Some(msg@),
                None => None,
            },
            keypair: self.keypair,
        }
    }
}

/// What came of the engine beginning a handshake.
#[derive(Debug, PartialEq, Eq)]
pub enum Begun {
    /// The device has no peer of the job's key: the engine was not asked.
    UnknownPeer,
    /// The engine refused.
    Failed,
    /// The engine returned this initiation message.
    Initiation(Vec<u8>),
}

/// One thing that a handshake worker does after the engine has answered.
/// The peer is the sender that the engine named, or the peer of the job's
/// key; the source is the endpoint that the message came from.
#[derive(Debug, PartialEq, Eq)]
pub enum HandshakeAction<K> {
    /// Send these bytes to the source, through the bind's writer if the bind
    /// has one; a failure is not retried.
    SendResponse(Vec<u8>),
    /// Add to the peer's counters of bytes received and sent.
    Credit { rx: u64, tx: u64 },
    /// Make the source the peer's endpoint.
    SetEndpoint,
    /// Tell the peer's timers that a handshake response was sent.
    SentHandshakeResponse,
    /// Tell the peer's timers that the handshake is complete.
    HandshakeComplete,
    /// Tell the peer's timers that a session was derived.
    SessionDerived,
    /// Install this key pair with the router, which returns the ids of the
    /// key pairs that it evicts.
    AddKeypair(K),
    /// Return this session id to the engine.
    Release(u32),
    /// Send these bytes to the peer through the router.
    SendInitiation(Vec<u8>),
    /// Tell the peer's timers that a handshake initiation was sent.
    SentHandshakeInitiation,
    /// Clear the peer's mark that a handshake is queued for it.
    ClearQueued,
}

/// A `HandshakeAction` with its message as a sequence of bytes.
pub enum HandshakeActionView<K> {
    SendResponse(Seq<u8>),
    Credit { rx: u64, tx: u64 },
    SetEndpoint,
    SentHandshakeResponse,
    HandshakeComplete,
    SessionDerived,
    AddKeypair(K),
    Release(u32),
    SendInitiation(Seq<u8>),
    SentHandshakeInitiation,
    ClearQueued,
}

impl<K> View for HandshakeAction<K> {
    type V = HandshakeActionView<K>;

    open spec fn view(&self) -> HandshakeActionView<K> {
        match *self {
            HandshakeAction::SendResponse(msg) => HandshakeActionView::SendResponse(msg@),
            HandshakeAction::Credit { rx, tx } => HandshakeActionView::Credit { rx, tx },
            HandshakeAction::SetEndpoint => HandshakeActionView::SetEndpoint,
            HandshakeAction::SentHandshakeResponse => HandshakeActionView::SentHandshakeResponse,
            HandshakeAction::HandshakeComplete => HandshakeActionView::HandshakeComplete,
            HandshakeAction::SessionDerived => HandshakeActionView::SessionDerived,
            HandshakeAction::AddKeypair(keypair) => HandshakeActionView::AddKeypair(keypair),
            HandshakeAction::Release(id) => HandshakeActionView::Release(id),
            HandshakeAction::SendInitiation(msg) => HandshakeActionView::SendInitiation(msg@),
            HandshakeAction::SentHandshakeInitiation => HandshakeActionView::SentHandshakeInitiation,
            HandshakeAction::ClearQueued => HandshakeActionView::ClearQueued,
        }
    }
}

/// The views of a list of actions, in order.
pub open spec fn action_views<K>(actions: Seq<HandshakeAction<K>>) -> Seq<HandshakeActionView<K>> {
    Seq::new(actions.len(), |i: int| actions[i]@)
}

/// The length of the reply, or zero where there is none.
pub open spec fn reply_len(response: Option<Seq<u8>>) -> nat {
    match response {
        Some(msg) => msg.len(),
        None => 0,
    }
}

/// What follows a handshake message of `request_len` bytes that the engine
/// accepted: the reply is sent, if there is one. If the sender is a known
/// peer, it is credited with the bytes of both messages, its endpoint
/// becomes the source, its timers learn that a response was sent or, with
/// no bytes of reply, that the handshake is complete, and a new key pair is
/// announced to the timers and installed.
pub open spec fn processed_actions<K>(request_len: usize, processed: ProcessedView<K>) -> Seq<
    HandshakeActionView<K>,
> {
    let reply = match processed.response {
        Some(msg) => seq![HandshakeActionView::SendResponse(msg)],
        None => seq![],
    };
    let install = match processed.keypair {
        Some(keypair) => seq![
            HandshakeActionView::SessionDerived,
            HandshakeActionView::AddKeypair(keypair),
        ],
        None => seq![],
    };
    if processed.peer_known {
        reply + seq![
            HandshakeActionView::Credit {
                rx: request_len as u64,
                tx: reply_len(processed.response) as u64,
            },
            HandshakeActionView::SetEndpoint,
            if reply_len(processed.response) > 0 {
                HandshakeActionView::SentHandshakeResponse
            } else {
                HandshakeActionView::HandshakeComplete
            },
        ] + install
    } else {
        reply
    }
}

/// What follows the engine's answer to a job to begin a handshake: for a
/// known peer the initiation is sent and the timers are told, if there is
/// one, and the peer's mark is cleared either way. For an unknown peer
/// nothing follows.
pub open spec fn begun_actions<K>(outcome: Begun) -> Seq<HandshakeActionView<K>> {
    match outcome {
        Begun::UnknownPeer => seq![],
        Begun::Failed => seq![HandshakeActionView::ClearQueued],
        Begun::Initiation(msg) => seq![
            HandshakeActionView::SendInitiation(msg@),
            HandshakeActionView::SentHandshakeInitiation,
            HandshakeActionView::ClearQueued,
        ],
    }
}

/// The second half of a turn on a handshake message of `request_len`
/// bytes: `outcome` is what the engine returned. An error of the engine has
/// no consequence.
pub fn handshake_processed<K, X>(request_len: usize, outcome: Result<Processed<K>, X>) -> (actions:
    Vec<HandshakeAction<K>>)
    ensures
        action_views(actions@) == match outcome {
            Ok(processed) => processed_actions(request_len, processed@),
            Err(_) => seq![],
        },
{
    let mut actions: Vec<HandshakeAction<K>> = Vec::new();
    let processed = match outcome {
        Ok(processed) => processed,
        Err(_) => {
            assert(action_views(actions@) =~= seq![]);
            return actions;
        },
    };
    let ghost expected = processed_actions(request_len, processed@);
    let Processed { peer_known, response, keypair } = processed;
    let mut response_len: u64 = 0;
    if let Some(msg) = response {
        response_len = msg.len() as u64;
        actions.push(HandshakeAction::SendResponse(msg));
    }
    if peer_known {
        actions.push(HandshakeAction::Credit { rx: request_len as u64, tx: response_len });
        actions.push(HandshakeAction::SetEndpoint);
        if response_len > 0 {
            actions.push(HandshakeAction::SentHandshakeResponse);
        } else {
            actions.push(HandshakeAction::HandshakeComplete);
        }
        if let Some(keypair) = keypair {
            actions.push(HandshakeAction::SessionDerived);
            actions.push(HandshakeAction::AddKeypair(keypair));
        }
    }
    assert(action_views(actions@) =~= expected);
    actions
}

/// The second half of a turn on a job to begin a handshake.
pub fn handshake_begun<K>(outcome: Begun) -> (actions: Vec<HandshakeAction<K>>)
    ensures
        action_views(actions@) == begun_actions::<K>(outcome),
{
    let mut actions: Vec<HandshakeAction<K>> = Vec::new();
    let ghost expected = begun_actions::<K>(outcome);
    match outcome {
        Begun::UnknownPeer => {},
        Begun::Failed => {
            actions.push(HandshakeAction::ClearQueued);
        },
        Begun::Initiation(msg) => {
            actions.push(HandshakeAction::SendInitiation(msg));
            actions.push(HandshakeAction::SentHandshakeInitiation);
            actions.push(HandshakeAction::ClearQueued);
        },
    }
    assert(action_views(actions@) =~= expected);
    actions
}

/// What follows the installation of a key pair: every session id that the
/// router evicted goes back to the engine, once, in the order in which the
/// router returned them.
pub fn release_evicted<K>(ids: &Vec<u32>) -> (actions: Vec<HandshakeAction<K>>)
    ensures
        action_views(actions@) == Seq::new(
            ids@.len(),
            |i: int| HandshakeActionView::<K>::Release(ids@[i]),
        ),
{
    let mut actions: Vec<HandshakeAction<K>> = Vec::new();
    let mut i: usize = 0;
    while i < ids.len()
        invariant
            i <= ids@.len(),
            actions@.len() == i,
            forall|j: int| 0 <= j < i ==> actions@[j]@ == HandshakeActionView::<K>::Release(ids@[j]),
        decreases ids@.len() - i,
    {
        actions.push(HandshakeAction::Release(ids[i]));
        i = i + 1;
    }
    assert(action_views(actions@) =~= Seq::new(
        ids@.len(),
        |i: int| HandshakeActionView::<K>::Release(ids@[i]),
    ));
    actions
}

/// A peer's mark that a handshake is queued for it is cleared by the job
/// that was queued, and by nothing else: no handshake message clears it, and
/// a job to begin a handshake clears it once, last of all, unless the peer
/// is unknown.
pub proof fn lemma_mark_cleared_by_its_job<K>(
    request_len: usize,
    processed: ProcessedView<K>,
    outcome: Begun,
)
    ensures
        forall|i: int|
            0 <= i < processed_actions(request_len, processed).len() ==> #[trigger] processed_actions(
                request_len,
                processed,
            )[i] != HandshakeActionView::<K>::ClearQueued,
        outcome is UnknownPeer ==> begun_actions::<K>(outcome).len() == 0,
        !(outcome is UnknownPeer) ==> begun_actions::<K>(outcome).last()
            == HandshakeActionView::<K>::ClearQueued,
        forall|i: int|
            0 <= i < begun_actions::<K>(outcome).len() - 1 ==> #[trigger] begun_actions::<K>(
                outcome,
            )[i] != HandshakeActionView::<K>::ClearQueued,
{
}

} // verus!
