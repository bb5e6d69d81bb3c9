//! Channels between socket workers, which talk to clients, and request workers, which keep
//! the torrents.

use crate::net::CanonicalSocketAddr;
use crate::protocol::InfoHash;
use crate::udp::config::Config;
use crate::udp::message::{ConnectedRequest, ConnectedResponse};
use crossbeam_channel::Sender;
use vstd::prelude::*;

verus! {

/// `crossbeam_channel::Sender`, the sending side of a channel.
#[verifier::external_type_specification]
#[verifier::external_body]
#[verifier::reject_recursive_types(T)]
pub struct ExSender<T>(Sender<T>);

/// Why a message was not sent, with the message itself.
#[derive(Debug)]
pub enum TrySendError<T> {
    /// The channel holds as many messages as it can.
    Full(T),
    /// Nobody is left to receive.
    Disconnected(T),
}

/// What a channel answers to a message.
pub enum Answer {
    /// The message is in the channel.
    Taken,
    /// The channel holds as many messages as it can.
    Full,
    /// Nobody is left to receive.
    Disconnected,
}

/// The answer that a result stands for.
pub open spec fn answer_of<T>(result: Result<(), TrySendError<T>>) -> Answer {
    match result {
        Ok(()) => Answer::Taken,
        Err(TrySendError::Full(_)) => Answer::Full,
        Err(TrySendError::Disconnected(_)) => Answer::Disconnected,
    }
}

/// What became of a message for the worker behind channel number `channel`.
#[derive(Debug)]
pub enum SendOutcome<T> {
    /// It is in the channel.
    Sent,
    /// It is dropped, since the channel is full: worth a line in the log.
    Dropped { channel: usize, message: T },
    /// The channel is disconnected: the tracker cannot go on.
    Disconnected { channel: usize, message: T },
}

impl<T> SendOutcome<T> {
    /// The outcome that goes with the result of a send to channel number `channel`.
    pub open spec fn spec_from_result(channel: usize, result: Result<(), TrySendError<T>>) -> Self {
        match result {
            Ok(()) => SendOutcome::Sent,
            Err(TrySendError::Full(message)) => SendOutcome::Dropped { channel, message },
            Err(TrySendError::Disconnected(message)) => SendOutcome::Disconnected {
                channel,
                message,
            },
        }
    }

    /// The outcome that goes with the result of a send to channel number `channel`.
    pub fn from_result(channel: usize, result: Result<(), TrySendError<T>>) -> (outcome: Self)
        ensures
            outcome == Self::spec_from_result(channel, result),
            match result {
                Ok(()) => outcome == SendOutcome::<T>::Sent,
                Err(TrySendError::Full(message)) => outcome == (SendOutcome::Dropped {
                    channel,
                    message,
                }),
                Err(TrySendError::Disconnected(message)) => outcome == (
                SendOutcome::Disconnected { channel, message }),
            },
    {
        match result {
            Ok(()) => SendOutcome::Sent,
            Err(TrySendError::Full(message)) => SendOutcome::Dropped { channel, message },
            Err(TrySendError::Disconnected(message)) => SendOutcome::Disconnected {
                channel,
                message,
            },
        }
    }

    /// The answer of the channel that the outcome stands for.
    pub open spec fn answer(self) -> Answer {
        match self {
            SendOutcome::Sent => Answer::Taken,
            SendOutcome::Dropped { .. } => Answer::Full,
            SendOutcome::Disconnected { .. } => Answer::Disconnected,
        }
    }

    /// Whether the outcome is one that a send of `message` to channel number `channel` has.
    pub open spec fn is_of(self, channel: usize, message: T) -> bool {
        ||| self == SendOutcome::<T>::Sent
        ||| self == SendOutcome::Dropped { channel, message }
        ||| self == SendOutcome::Disconnected { channel, message }
    }
}

/// Number of a socket worker.
#[derive(Clone, Copy, Debug)]
pub struct SocketWorkerIndex(pub usize);

/// Number of a request worker.
#[derive(Clone, Copy, PartialEq, Eq, Structural, Hash, Debug)]
pub struct RequestWorkerIndex(pub usize);

/// Which of `request_workers` workers keeps the torrent: its number is what is left of the first
/// byte of the info hash when it is divided by the number of workers.
pub open spec fn request_worker_of(info_hash: InfoHash, request_workers: usize) -> int {
    info_hash.0@[0] as int % request_workers as int
}

impl RequestWorkerIndex {
    /// The worker that keeps the torrent.
    pub fn from_info_hash(config: &Config, info_hash: InfoHash) -> (index: Self)
        requires
            config.request_workers > 0,
        ensures
            index.0 == request_worker_of(info_hash, config.request_workers),
            index.0 == info_hash.0@[0] as int % config.request_workers as int,
            index.0 < config.request_workers,
    {
        RequestWorkerIndex(info_hash.0[0] as usize % config.request_workers)
    }
}

/// What a socket worker sends: its own number, a request, and where the request came from.
pub type RequestMessage = (SocketWorkerIndex, ConnectedRequest, CanonicalSocketAddr);

/// What a request worker sends: a response, and where it is to go.
pub type ResponseMessage = (ConnectedResponse, CanonicalSocketAddr);

/// The requests offered to the channel of `sender` in the whole of its life, each with what the
/// channel answered.
pub uninterp spec fn requests_offered(sender: Sender<RequestMessage>) -> Set<(RequestMessage, Answer)>;

/// `crossbeam_channel::Sender::try_send`, for requests: offers `message` to the channel, which
/// takes it, or refuses it at once and gives it back, because the channel is full or because it
/// is disconnected. Which of these comes depends on what the other workers have done, and is
/// not claimed.
#[verifier::external_body]
fn try_send_request(sender: &Sender<RequestMessage>, message: RequestMessage) -> (result: Result<
    (),
    TrySendError<RequestMessage>,
>)
    ensures
        requests_offered(*sender).contains((message, answer_of(result))),
        result matches Err(TrySendError::Full(m)) ==> m == message,
        result matches Err(TrySendError::Disconnected(m)) ==> m == message,
{
    match sender.try_send(message) {
        Ok(()) => Ok(()),
        Err(crossbeam_channel::TrySendError::Full(m)) => Err(TrySendError::Full(m)),
        Err(crossbeam_channel::TrySendError::Disconnected(m)) => {
            Err(TrySendError::Disconnected(m))
        },
    }
}

/// The responses offered to the channel of `sender` in the whole of its life, each with what the
/// channel answered.
pub uninterp spec fn responses_offered(sender: Sender<ResponseMessage>) -> Set<(ResponseMessage, Answer)>;

/// `crossbeam_channel::Sender::try_send`, for responses: offers `message` to the channel, which
/// takes it, or refuses it at once and gives it back, because the channel is full or because it
/// is disconnected. Which of these comes depends on what the other workers have done, and is
/// not claimed.
#[verifier::external_body]
fn try_send_response(sender: &Sender<ResponseMessage>, message: ResponseMessage) -> (result: Result<
    (),
    TrySendError<ResponseMessage>,
>)
    ensures
        responses_offered(*sender).contains((message, answer_of(result))),
        result matches Err(TrySendError::Full(m)) ==> m == message,
        result matches Err(TrySendError::Disconnected(m)) ==> m == message,
{
    match sender.try_send(message) {
        Ok(()) => Ok(()),
        Err(crossbeam_channel::TrySendError::Full(m)) => Err(TrySendError::Full(m)),
        Err(crossbeam_channel::TrySendError::Disconnected(m)) => {
            Err(TrySendError::Disconnected(m))
        },
    }
}

/// A socket worker's way to the request workers.
pub struct ConnectedRequestSender {
    index: SocketWorkerIndex,
    senders: Vec<Sender<RequestMessage>>,
}

impl ConnectedRequestSender {
    /// The number of the socket worker.
    pub closed spec fn index(self) -> SocketWorkerIndex {
        self.index
    }

    /// The channels, that of each request worker at its number.
    pub closed spec fn senders(self) -> Seq<Sender<RequestMessage>> {
        self.senders@
    }

    pub fn new(index: SocketWorkerIndex, senders: Vec<Sender<RequestMessage>>) -> (sender: Self)
        ensures
            sender.index() == index,
            sender.senders() == senders@,
    {
        ConnectedRequestSender { index, senders }
    }

    /// The number of channels.
    pub fn len(&self) -> (len: usize)
        ensures
            len == self.senders().len(),
    {
        self.senders.len()
    }

    /// The channel of a request worker, and what is to go in it for a request from `addr`.
    pub fn route(
        &self,
        index: RequestWorkerIndex,
        request: ConnectedRequest,
        addr: CanonicalSocketAddr,
    ) -> (routed: (&Sender<RequestMessage>, RequestMessage))
        requires
            index.0 < self.senders().len(),
        ensures
            *routed.0 == self.senders()[index.0 as int],
            routed.1 == (self.index(), request, addr),
    {
        (&self.senders[index.0], (self.index, request, addr))
    }

    /// Offers a request to a request worker, without waiting, together with the number of
    /// this socket worker and the address that the request came from: what
    /// [`Self::route`] says, where it says. The outcome is what the channel answered; a
    /// message that it refused comes back. Which answer comes depends on the other workers, and
    /// is not stated. Nor is how often the message is offered: an offer changes the channel
    /// through a shared reference, behind which contracts see no change.
    pub fn try_send_to(
        &self,
        index: RequestWorkerIndex,
        request: ConnectedRequest,
        addr: CanonicalSocketAddr,
    ) -> (outcome: SendOutcome<RequestMessage>)
        requires
            index.0 < self.senders().len(),
        ensures
            outcome.is_of(index.0, (self.index(), request, addr)),
            requests_offered(self.senders()[index.0 as int]).contains(
                ((self.index(), request, addr), outcome.answer()),
            ),
            requests_offered(self.senders()[index.0 as int]).contains(
                (
                    (self.index(), request, addr),
                    match outcome {
                        SendOutcome::Sent => Answer::Taken,
                        SendOutcome::Dropped { .. } => Answer::Full,
                        SendOutcome::Disconnected { .. } => Answer::Disconnected,
                    },
                ),
            ),
            match outcome {
                SendOutcome::Sent => true,
                SendOutcome::Dropped { channel, message } => channel == index.0 && message == (
                    self.index(),
                    request,
                    addr,
                ),
                SendOutcome::Disconnected { channel, message } => channel == index.0 && message == (
                    self.index(),
                    request,
                    addr,
                ),
            },
    {
        let (sender, message) = self.route(index, request, addr);
        SendOutcome::from_result(index.0, try_send_request(sender, message))
    }
}

/// A request worker's way to the socket workers.
pub struct ConnectedResponseSender {
    senders: Vec<Sender<ResponseMessage>>,
}

impl ConnectedResponseSender {
    /// The channels, that of each socket worker at its number.
    pub closed spec fn senders(self) -> Seq<Sender<ResponseMessage>> {
        self.senders@
    }

    pub fn new(senders: Vec<Sender<ResponseMessage>>) -> (sender: Self)
        ensures
            sender.senders() == senders@,
    {
        ConnectedResponseSender { senders }
    }

    /// The number of channels.
    pub fn len(&self) -> (len: usize)
        ensures
            len == self.senders().len(),
    {
        self.senders.len()
    }

    /// The channel of a socket worker, and what is to go in it for a response to `addr`.
    pub fn route(
        &self,
        index: SocketWorkerIndex,
        response: ConnectedResponse,
        addr: CanonicalSocketAddr,
    ) -> (routed: (&Sender<ResponseMessage>, ResponseMessage))
        requires
            index.0 < self.senders().len(),
        ensures
            *routed.0 == self.senders()[index.0 as int],
            routed.1 == (response, addr),
    {
        (&self.senders[index.0], (response, addr))
    }

    /// Offers a response to a socket worker, without waiting, together with the address that
    /// it is to go to: what [`Self::route`] says, where it says. The outcome is what the
    /// channel answered; a message that it refused comes back. Which answer comes depends on
    /// the other workers, and is not stated. Nor is how often the message is offered: an offer
    /// changes the channel through a shared reference, behind which contracts see no change.
    pub fn try_send_to(
        &self,
        index: SocketWorkerIndex,
        response: ConnectedResponse,
        addr: CanonicalSocketAddr,
    ) -> (outcome: SendOutcome<ResponseMessage>)
        requires
            index.0 < self.senders().len(),
        ensures
            outcome.is_of(index.0, (response, addr)),
            responses_offered(self.senders()[index.0 as int]).contains(
                ((response, addr), outcome.answer()),
            ),
            responses_offered(self.senders()[index.0 as int]).contains(
                (
                    (response, addr),
                    match outcome {
                        SendOutcome::Sent => Answer::Taken,
                        SendOutcome::Dropped { .. } => Answer::Full,
                        SendOutcome::Disconnected { .. } => Answer::Disconnected,
                    },
                ),
            ),
            match outcome {
                SendOutcome::Sent => true,
                SendOutcome::Dropped { channel, message } => channel == index.0 && message == (
                    response,
                    addr,
                ),
                SendOutcome::Disconnected { channel, message } => channel == index.0 && message == (
                    response,
                    addr,
                ),
            },
    {
        let (sender, message) = self.route(index, response, addr);
        SendOutcome::from_result(index.0, try_send_response(sender, message))
    }
}

/// With as many channels as there are request workers, each torrent has a worker to go to.
pub proof fn each_torrent_has_a_channel(
    config: Config,
    sender: ConnectedRequestSender,
    info_hash: InfoHash,
)
    requires
        config.request_workers > 0,
        sender.senders().len() == config.request_workers,
    ensures
        0 <= request_worker_of(info_hash, config.request_workers) < sender.senders().len(),
{
}

/// Torrents are dealt out to the workers in turn, by the first byte of the info hash and by
/// nothing else: those whose first bytes are one apart go to neighbouring workers, after the last
/// of whom comes the first, and those whose first byte is the number of a worker go to it.
pub proof fn torrents_are_dealt_out_by_their_first_byte(
    info_hash: InfoHash,
    other: InfoHash,
    request_workers: usize,
)
    requires
        request_workers > 0,
    ensures
        info_hash.0@[0] < request_workers ==> request_worker_of(info_hash, request_workers)
            == info_hash.0@[0],
        other.0@[0] == info_hash.0@[0] ==> request_worker_of(other, request_workers)
            == request_worker_of(info_hash, request_workers),
        other.0@[0] == info_hash.0@[0] + 1 ==> request_worker_of(other, request_workers) == (
        if request_worker_of(info_hash, request_workers) + 1 < request_workers {
            request_worker_of(info_hash, request_workers) + 1
        } else {
            0
        }),
{
    let a = info_hash.0@[0] as int;
    let n = request_workers as int;
    if info_hash.0@[0] < request_workers {
        vstd::arithmetic::div_mod::lemma_small_mod(a as nat, n as nat);
    }
    vstd::arithmetic::div_mod::lemma_fundamental_div_mod(a, n);
    let q = a / n;
    let r = a % n;
    if r + 1 < n {
        vstd::arithmetic::div_mod::lemma_fundamental_div_mod_converse(a + 1, n, q, r + 1);
    } else {
        assert((q + 1) * n == n * q + n) by (nonlinear_arith);
        assert(q * n == n * q) by (nonlinear_arith);
        vstd::arithmetic::div_mod::lemma_fundamental_div_mod_converse(a + 1, n, q + 1, 0);
    }
}

/// Nothing is lost between a result and its outcome: each answer of the channel has an outcome of
/// its own, and what was refused is in it.
pub proof fn outcomes_tell_results_apart<T>(
    channel: usize,
    result: Result<(), TrySendError<T>>,
    other_channel: usize,
    other: Result<(), TrySendError<T>>,
)
    ensures
        SendOutcome::spec_from_result(channel, result) == SendOutcome::spec_from_result(
            other_channel,
            other,
        ) <==> (result is Ok && other is Ok) || (result is Err && result == other && channel
            == other_channel),
        SendOutcome::spec_from_result(channel, result).answer() == answer_of(result),
        result is Ok <==> SendOutcome::spec_from_result(channel, result) is Sent,
        (result matches Err(TrySendError::Full(_))) <==> SendOutcome::spec_from_result(
            channel,
            result,
        ) is Dropped,
{
}

/// A message that was refused comes back whole, with the number of the channel that refused it.
pub proof fn refused_messages_come_back<T>(outcome: SendOutcome<T>, channel: usize, message: T)
    requires
        outcome.is_of(channel, message),
    ensures
        match outcome {
            SendOutcome::Sent => outcome.answer() == Answer::Taken,
            SendOutcome::Dropped { channel: c, message: m } => c == channel && m == message
                && outcome.answer() == Answer::Full,
            SendOutcome::Disconnected { channel: c, message: m } => c == channel && m == message
                && outcome.answer() == Answer::Disconnected,
        },
{
}

} // verus!
