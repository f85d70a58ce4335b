//! Ports of a component: counted channels, output ports and option receivers.
//!
//! The interfaces through which a scheduler connects components exchange
//! type-erased handles (`Box<dyn Any>`); they live beside this library, since
//! Verus cannot declare `Any`. Everything that moves packets is here.

use crate::mpsc_specs::{clone_scheduler, clone_sync_sender, read_of, share_counter, TracedReceiver};
use crate::scheduler::CompMsg;
use std::sync::atomic::AtomicUsize;
use std::sync::atomic::Ordering;
use std::sync::mpsc::{Receiver, RecvError, SendError, Sender, SyncSender, TryRecvError};
use std::sync::mpsc::sync_channel;
use std::sync::Arc;
use vstd::prelude::*;

verus! {

/// Runs a component once: it reads from its input ports and writes to its
/// output ports.
pub trait ComponentRun: Send {
    /// Runs the component once.
    fn run(&mut self);
}

/// What an information packet must be: something that can cross threads.
pub trait IP: Send + 'static {}

impl<T> IP for T where T: Send + 'static {}

/// Error of an output port: either it is not connected, or the channel
/// behind it refused the packet (its receiver is gone).
#[verifier::reject_recursive_types(T)]
pub enum OutputPortError<T> {
    NotConnected,
    CannotSend(SendError<T>),
}

/// What an output port answers for the outcome `res` of a send on the
/// channel it is connected to.
pub fn port_result<T>(res: Result<(), SendError<T>>) -> (r: Result<(), OutputPortError<T>>)
    ensures
        match res {
            Ok(()) => r is Ok,
            Err(e) => r == Err::<(), OutputPortError<T>>(OutputPortError::CannotSend(e)),
        },
{
    match res {
        Ok(()) => Ok(()),
        Err(e) => Err(OutputPortError::CannotSend(e)),
    }
}

// ---------------------------------------------------------------------------
// Counted channels
// ---------------------------------------------------------------------------

/// How a counted channel settles the outcome `res` of a send or a receive:
/// the outcome is answered unchanged, and the shared counter moves exactly
/// when it is `Ok`.
pub fn count_outcome<T, E>(res: Result<T, E>) -> (r: (Result<T, E>, bool))
    ensures
        r.0 == res,
        r.1 == res is Ok,
{
    let moves = res.is_ok();
    (res, moves)
}

/// The sending half of a counted channel.
///
/// Each accepted packet bumps the counter shared with the receiving half,
/// and, when a scheduler is attached, wakes the component that reads the
/// channel.
#[verifier::reject_recursive_types(T)]
pub struct CountSender<T> {
    send: SyncSender<T>,
    pub count: Arc<AtomicUsize>,
    sched: Option<(String, Sender<CompMsg>)>,
}

impl<T> CountSender<T> {
    /// The channel this half feeds.
    pub closed spec fn channel(&self) -> SyncSender<T> {
        self.send
    }

    /// The counter shared with the receiving half.
    pub closed spec fn counter(&self) -> Arc<AtomicUsize> {
        self.count
    }

    /// The component to wake, and the scheduler to tell, after each accepted
    /// packet.
    pub closed spec fn scheduler(&self) -> Option<(String, Sender<CompMsg>)> {
        self.sched
    }

    /// A sending half over `sender` that shares the counter `atom`, with no
    /// scheduler attached.
    pub fn new(sender: SyncSender<T>, atom: Arc<AtomicUsize>) -> (r: Self)
        ensures
            r.channel() == sender,
            r.counter() == atom,
            r.scheduler() is None,
    {
        CountSender { send: sender, count: atom, sched: None }
    }

    /// What the scheduler is told after a send: to start the reading
    /// component, when the packet was `accepted` and a scheduler is attached;
    /// nothing otherwise.
    pub open spec fn notice_for(&self, accepted: bool) -> Option<CompMsg> {
        if accepted {
            match self.scheduler() {
                Some((n, _)) => Some(CompMsg::Start(n)),
                None => None,
            }
        } else {
            None
        }
    }

    /// The message for the scheduler after a send, as `notice_for` says.
    pub fn notice(&self, accepted: bool) -> (r: Option<CompMsg>)
        ensures
            r == self.notice_for(accepted),
    {
        if accepted {
            match &self.sched {
                Some((n, _)) => Some(CompMsg::Start(n.clone())),
                None => None,
            }
        } else {
            None
        }
    }

    /// Everything a send decides on the channel's outcome `res`: the answer
    /// (`res` unchanged), whether the shared counter goes up (exactly when
    /// `res` is `Ok`), and what the scheduler is told.
    pub fn settle_send(&self, res: Result<(), SendError<T>>) -> (r: (
        Result<(), SendError<T>>,
        bool,
        Option<CompMsg>,
    ))
        ensures
            r.0 == res,
            r.1 == res is Ok,
            r.2 == self.notice_for(res is Ok),
    {
        let (res, accepted) = count_outcome(res);
        let told = self.notice(accepted);
        (res, accepted, told)
    }

    /// Sends `msg` on the channel and answers the channel's outcome, which
    /// carries `msg` back when it is refused. What follows is what
    /// `settle_send` decides: when the channel accepts the packet, the shared
    /// counter goes up by one and the scheduler, if one is attached, is told
    /// to start the reader; a scheduler that has gone away is not told, and
    /// the send still succeeds. The counter's value is not stated: Verus has
    /// no model of the value held in a std atomic.
    pub fn send(&self, msg: T) -> (r: Result<(), SendError<T>>)
        ensures
            r matches Err(e) ==> e.0 == msg,
    {
        let (res, accepted, told) = self.settle_send(self.send.send(msg));
        if accepted {
            self.count.fetch_add(1, Ordering::SeqCst);
        }
        match told {
            Some(m) => match &self.sched {
                Some((_, s)) => {
                    let _delivered = s.send(m);
                },
                None => {},
            },
            None => {},
        }
        res
    }

    /// Attaches the scheduler `sched`, which will be told to start the
    /// component `name` after each accepted packet.
    pub fn set_sched(&mut self, name: String, sched: Sender<CompMsg>)
        ensures
            final(self).scheduler() == Some((name, sched)),
            final(self).channel() == old(self).channel(),
            final(self).counter() == old(self).counter(),
    {
        self.sched = Some((name, sched));
    }
}

impl<T> Clone for CountSender<T> {
    /// A second sending half on the same channel, sharing the same counter
    /// and the same scheduler.
    fn clone(&self) -> (r: Self)
        ensures
            r == *self,
    {
        let sched = match &self.sched {
            Some((n, s)) => Some((n.clone(), clone_scheduler(s))),
            None => None,
        };
        CountSender { send: clone_sync_sender(&self.send), count: share_counter(&self.count), sched: sched }
    }
}

/// The receiving half of a counted channel: each packet taken from the
/// channel brings the shared counter down by one.
#[verifier::reject_recursive_types(T)]
pub struct CountReceiver<T> {
    recv: Receiver<T>,
    pub count: Arc<AtomicUsize>,
}

impl<T> CountReceiver<T> {
    /// The channel this half reads.
    pub closed spec fn channel(&self) -> Receiver<T> {
        self.recv
    }

    /// The counter shared with the sending half.
    pub closed spec fn counter(&self) -> Arc<AtomicUsize> {
        self.count
    }

    /// A receiving half over `recv` that shares the counter `atom`.
    pub fn new(recv: Receiver<T>, atom: Arc<AtomicUsize>) -> (r: Self)
        ensures
            r.channel() == recv,
            r.counter() == atom,
    {
        CountReceiver { recv: recv, count: atom }
    }

    /// Waits for a packet and answers the channel's outcome unchanged; when a
    /// packet comes, the shared counter goes down by one, as `count_outcome`
    /// decides. Neither is stated here: the outcome depends on other threads
    /// and this half, taken by shared reference, keeps no record of it, and
    /// Verus has no model of the value held in a std atomic.
    pub fn recv(&self) -> Result<T, RecvError> {
        let (res, taken) = count_outcome(self.recv.recv());
        if taken {
            self.count.fetch_sub(1, Ordering::SeqCst);
        }
        res
    }

    /// Takes a pending packet, if there is one, and answers the channel's
    /// outcome unchanged; when a packet comes, the shared counter goes down
    /// by one, as `count_outcome` decides. Neither is stated here: the
    /// outcome depends on other threads and this half, taken by shared
    /// reference, keeps no record of it, and Verus has no model of the value
    /// held in a std atomic.
    pub fn try_recv(&self) -> Result<T, TryRecvError> {
        let (res, taken) = count_outcome(self.recv.try_recv());
        if taken {
            self.count.fetch_sub(1, Ordering::SeqCst);
        }
        res
    }
}

/// A counted channel that holds at most `size` packets: both halves share
/// one counter, which starts at zero, and no scheduler is attached. The
/// bound and the starting value are not stated: a std channel's bound and a
/// std atomic's value have no model in Verus, and only trusted items could
/// give them one.
pub fn count_channel<T>(size: usize) -> (r: (CountSender<T>, CountReceiver<T>))
    ensures
        r.0.counter() == r.1.counter(),
        r.0.scheduler() is None,
{
    let (s, r) = sync_channel(size);
    let c = Arc::new(AtomicUsize::new(0));
    let s = CountSender::new(s, share_counter(&c));
    let r = CountReceiver::new(r, share_counter(&c));
    (s, r)
}

// ---------------------------------------------------------------------------
// Output ports
// ---------------------------------------------------------------------------

/// An output port: either unconnected, or connected to the sending half of a
/// counted channel.
#[verifier::reject_recursive_types(T)]
pub struct OutputSender<T> {
    send: Option<CountSender<T>>,
}

impl<T> OutputSender<T> {
    /// The sending half the port is connected to, if any.
    pub closed spec fn connection(&self) -> Option<CountSender<T>> {
        self.send
    }

    /// The port after `connect(send)`.
    pub closed spec fn connected_to(self, send: CountSender<T>) -> Self {
        OutputSender { send: Some(send) }
    }

    /// The port after `disconnect()`.
    pub closed spec fn unconnected() -> Self {
        OutputSender { send: None }
    }

    /// A new, unconnected port.
    pub fn new() -> (r: Self)
        ensures
            r == Self::unconnected(),
            r.connection() is None,
    {
        OutputSender { send: None }
    }

    /// Connects the port to `send`, replacing any earlier connection.
    pub fn connect(&mut self, send: CountSender<T>)
        ensures
            *final(self) == old(self).connected_to(send),
            final(self).connection() == Some(send),
    {
        self.send = Some(send);
    }

    /// Gives up the port, handing back the sending half it was connected to.
    pub fn remove(self) -> (r: Option<CountSender<T>>)
        ensures
            r == self.connection(),
    {
        self.send
    }

    /// Disconnects the port.
    pub fn disconnect(&mut self)
        ensures
            *final(self) == Self::unconnected(),
            final(self).connection() is None,
    {
        self.send = None;
    }

    /// Sends `msg` through the port. An unconnected port answers
    /// `NotConnected`; a connected one forwards the packet and answers with
    /// the channel's outcome, as `port_result` maps it, so that a refused
    /// packet comes back inside `CannotSend`. The packet goes through the
    /// connection's `CountSender::send`, with its counting and its notice;
    /// those effects are not stated, for the reasons given there.
    pub fn send(&self, msg: T) -> (r: Result<(), OutputPortError<T>>)
        ensures
            (r matches Err(OutputPortError::NotConnected)) <==> self.connection() is None,
            r matches Err(OutputPortError::CannotSend(e)) ==> e.0 == msg,
    {
        match &self.send {
            None => Err(OutputPortError::NotConnected),
            Some(send) => port_result(send.send(msg)),
        }
    }
}

/// Connecting a port and then giving it up hands back the sending half it was
/// connected to.
pub proof fn law_remove_after_connect<T>(port: OutputSender<T>, send: CountSender<T>)
    ensures
        port.connected_to(send).connection() == Some(send),
{
}

/// A second connection replaces the first.
pub proof fn law_connect_replaces<T>(port: OutputSender<T>, a: CountSender<T>, b: CountSender<T>)
    ensures
        port.connected_to(a).connected_to(b) == port.connected_to(b),
{
}

/// A disconnected port, like a new one, has no connection: `send` on it
/// answers `NotConnected`.
pub proof fn law_disconnected_port_is_unconnected<T>()
    ensures
        OutputSender::<T>::unconnected().connection() is None,
{
}

// ---------------------------------------------------------------------------
// Option receivers
// ---------------------------------------------------------------------------

/// What a drain does with one answer `outcome` of the channel, holding `acc`
/// (the latest packet so far, or the remembered one).
pub enum DrainStep<T> {
    /// A packet came: keep draining, with it as the latest.
    Next(T),
    /// The channel has nothing more: answer the packet in hand.
    Done(T),
    /// The channel has nothing, and there is no packet in hand.
    Failed(TryRecvError),
}

/// One step of a drain: a packet becomes the latest and draining goes on; a
/// refusal ends the drain with the packet in hand, or with the refusal when
/// there is none.
pub fn drain_step<T>(acc: Option<T>, outcome: Result<T, TryRecvError>) -> (r: DrainStep<T>)
    ensures
        match outcome {
            Ok(m) => r == DrainStep::Next(m),
            Err(e) => match acc {
                Some(v) => r == DrainStep::<T>::Done(v),
                None => r == DrainStep::<T>::Failed(e),
            },
        },
{
    match outcome {
        Ok(m) => DrainStep::Next(m),
        Err(e) => match acc {
            Some(v) => DrainStep::Done(v),
            None => DrainStep::Failed(e),
        },
    }
}

/// The latest packet among the answers `reads`, or `init` when they hold
/// none.
pub open spec fn latest_of<T>(reads: Seq<Option<T>>, init: Option<T>) -> Option<T>
    decreases reads.len(),
{
    if reads.len() == 0 {
        init
    } else {
        match reads.last() {
            Some(m) => Some(m),
            None => latest_of(reads.drop_last(), init),
        }
    }
}

/// The loop that drains the channel takes at most this many packets in one
/// call, which gives it a measure that decreases; on reaching it, the
/// packet in hand is answered as the latest.
pub const DRAIN_LIMIT: u64 = u64::MAX;

/// `reads` are the answers of one complete drain: packets until the channel
/// refused, or `DRAIN_LIMIT + 1` packets.
pub open spec fn drained<T>(reads: Seq<Option<T>>) -> bool {
    ||| reads.len() > 0 && reads.last() is None && forall|i: int|
        0 <= i < reads.len() - 1 ==> #[trigger] reads[i] is Some
    ||| reads.len() == DRAIN_LIMIT + 1 && forall|i: int| 0 <= i < reads.len() ==> #[trigger] reads[i] is Some
}

/// `reads` are the answers of a drain starting from `init`, with `waited`
/// blocking receives among them: none, when the drain found a packet or had
/// `init`; otherwise the drain, then one blocking receive.
pub open spec fn drained_or_waited<T>(reads: Seq<Option<T>>, init: Option<T>, waited: int) -> bool {
    ||| drained(reads) && latest_of(reads, init) is Some && waited == 0
    ||| reads.len() > 0 && drained(reads.drop_last()) && latest_of(reads.drop_last(), init) is None
        && waited == 1
}

/// The latest packet of answers `a` then `b` is the latest of `b`, starting
/// from the latest of `a`.
pub proof fn lemma_latest_concat<T>(a: Seq<Option<T>>, b: Seq<Option<T>>, init: Option<T>)
    ensures
        latest_of(a + b, init) == latest_of(b, latest_of(a, init)),
    decreases b.len(),
{
    if b.len() == 0 {
        assert(a + b =~= a);
    } else {
        assert((a + b).drop_last() =~= a + b.drop_last());
        assert((a + b).last() == b.last());
        lemma_latest_concat(a, b.drop_last(), init);
    }
}

/// Whether answers hold a latest packet depends on the starting packet only
/// through whether there is one.
pub proof fn lemma_latest_is_some<T>(reads: Seq<Option<T>>, x: Option<T>, y: Option<T>)
    requires
        x is Some <==> y is Some,
    ensures
        latest_of(reads, x) is Some <==> latest_of(reads, y) is Some,
    decreases reads.len(),
{
    if reads.len() > 0 {
        lemma_latest_is_some(reads.drop_last(), x, y);
    }
}

/// Recording one more answer `read` keeps what was recorded before `start`
/// and adds `read` to what was recorded since.
proof fn lemma_record_one<T>(start: Seq<Option<T>>, before: Seq<Option<T>>, read: Option<T>)
    requires
        start.len() <= before.len(),
        before.subrange(0, start.len() as int) == start,
    ensures
        before.push(read).subrange(0, start.len() as int) == start,
        before.push(read).skip(start.len() as int) == before.skip(start.len() as int).push(read),
        before.push(read).skip(start.len() as int).drop_last() == before.skip(start.len() as int),
{
    assert(before.push(read).subrange(0, start.len() as int) =~= before.subrange(0, start.len() as int));
    assert(before.push(read).skip(start.len() as int) =~= before.skip(start.len() as int).push(read));
    assert(before.push(read).skip(start.len() as int).drop_last() =~= before.skip(start.len() as int));
}

/// The receiving end of an option port.
///
/// It remembers the last packet it returned. When several packets are
/// waiting, it keeps only the latest; when none is waiting, it hands out the
/// remembered one again; before the first packet, `recv` waits for one. It
/// reads its channel through a traced handle, whose record of the channel's
/// answers its contracts speak of.
#[verifier::reject_recursive_types(T)]
pub struct OptionReceiver<T> {
    opt: Option<T>,
    receiver: TracedReceiver<T>,
}

impl<T> OptionReceiver<T> {
    /// The packet remembered from the last call, if any.
    pub closed spec fn remembered(&self) -> Option<T> {
        self.opt
    }

    /// The channel read.
    pub closed spec fn channel(&self) -> Receiver<T> {
        self.receiver.channel()
    }

    /// Every answer the channel gave so far, oldest first: a packet, or
    /// `None` for a refusal.
    pub closed spec fn reads(&self) -> Seq<Option<T>> {
        self.receiver.answers()
    }

    /// How many of those answers came from a blocking receive.
    pub closed spec fn waits(&self) -> nat {
        self.receiver.waits()
    }

    /// A packet is remembered exactly when the channel has handed one out.
    pub open spec fn wf(&self) -> bool {
        self.remembered() is None <==> latest_of(self.reads(), None) is None
    }

    /// `after` reads the same channel, and its record is that of `self`
    /// followed by more answers.
    pub open spec fn extended_by(&self, after: &Self) -> bool {
        &&& self.reads().len() <= after.reads().len()
        &&& after.reads().subrange(0, self.reads().len() as int) == self.reads()
        &&& after.channel() == self.channel()
        &&& self.waits() <= after.waits()
    }

    /// The answers the channel gave between `self` and `after`.
    pub open spec fn fresh(&self, after: &Self) -> Seq<Option<T>> {
        after.reads().skip(self.reads().len() as int)
    }

    /// How many blocking receives were made between `self` and `after`.
    pub open spec fn waited(&self, after: &Self) -> int {
        after.waits() - self.waits()
    }
}

impl<T: Clone> OptionReceiver<T> {
    /// An option receiver on `r` that remembers nothing yet.
    pub fn new(r: Receiver<T>) -> (res: Self)
        ensures
            res.channel() == r,
            res.remembered() is None,
            res.reads() == Seq::<Option<T>>::empty(),
            res.waits() == 0,
            res.wf(),
    {
        OptionReceiver { opt: None, receiver: TracedReceiver::new(r) }
    }

    /// `after` is `self` with the answers `fresh` recorded since, and keeps
    /// the invariant when the remembered packet is the latest of them.
    proof fn lemma_keeps_wf(&self, after: &Self, r: Option<T>)
        requires
            self.wf(),
            self.extended_by(after),
            r == latest_of(self.fresh(after), self.remembered()),
            after.remembered() is Some <==> r is Some,
        ensures
            after.wf(),
    {
        assert(after.reads() =~= self.reads() + self.fresh(after));
        lemma_latest_concat(self.reads(), self.fresh(after), None);
        lemma_latest_is_some(self.fresh(after), latest_of(self.reads(), None), self.remembered());
    }

    /// Drains the channel without blocking: answers its latest packet, or
    /// `init` when it had none, or, with neither, the channel's refusal.
    fn try_recv_last(&mut self, init: Option<T>) -> (r: Result<T, TryRecvError>)
        ensures
            old(self).extended_by(final(self)),
            final(self).remembered() == old(self).remembered(),
            drained(old(self).fresh(final(self))),
            old(self).waited(final(self)) == 0,
            r is Ok <==> latest_of(old(self).fresh(final(self)), init) is Some,
            r matches Ok(m) ==> latest_of(old(self).fresh(final(self)), init) == Some(m),
    {
        let ghost start = *self;
        let mut acc = init;
        let mut steps: u64 = 0;
        assert(self.reads().subrange(0, self.reads().len() as int) =~= self.reads());
        assert(start.fresh(self) =~= Seq::<Option<T>>::empty());
        loop
            invariant
                start == *old(self),
                start.extended_by(self),
                self.remembered() == start.remembered(),
                self.waits() == start.waits(),
                start.fresh(self).len() == steps,
                forall|i: int| 0 <= i < start.fresh(self).len() ==> #[trigger] start.fresh(self)[i] is Some,
                acc == latest_of(start.fresh(self), init),
            decreases DRAIN_LIMIT - steps,
        {
            let ghost before = self.reads();
            let outcome = self.receiver.try_recv();
            proof {
                lemma_record_one(start.reads(), before, read_of(outcome));
            }
            match drain_step(acc, outcome) {
                DrainStep::Next(m) => {
                    if steps == DRAIN_LIMIT {
                        return Ok(m);
                    }
                    acc = Some(m);
                    steps = steps + 1;
                },
                DrainStep::Done(v) => {
                    return Ok(v);
                },
                DrainStep::Failed(e) => {
                    return Err(e);
                },
            }
        }
    }

    /// Drains the channel and answers its latest packet, or `init` when it
    /// had none; with neither, waits for a packet, and answers the channel's
    /// refusal once every sender is gone.
    fn recv_last(&mut self, init: Option<T>) -> (r: Result<T, RecvError>)
        ensures
            old(self).extended_by(final(self)),
            final(self).remembered() == old(self).remembered(),
            drained_or_waited(old(self).fresh(final(self)), init, old(self).waited(final(self))),
            r is Ok <==> latest_of(old(self).fresh(final(self)), init) is Some,
            r matches Ok(m) ==> latest_of(old(self).fresh(final(self)), init) == Some(m),
    {
        let ghost start = *self;
        match self.try_recv_last(init) {
            Ok(v) => Ok(v),
            Err(_) => {
                let ghost before = self.reads();
                let res = self.receiver.recv();
                proof {
                    lemma_record_one(start.reads(), before, read_of(res));
                }
                res
            },
        }
    }

    /// Answers the latest packet of the channel, or the remembered one when
    /// none is waiting; before the first packet, waits for one, and answers
    /// the channel's refusal once every sender is gone. A packet answered is
    /// remembered (as a clone) for the next call.
    pub fn recv(&mut self) -> (r: Result<T, RecvError>)
        ensures
            old(self).extended_by(final(self)),
            drained_or_waited(
                old(self).fresh(final(self)),
                old(self).remembered(),
                old(self).waited(final(self)),
            ),
            r is Ok <==> latest_of(old(self).fresh(final(self)), old(self).remembered()) is Some,
            r matches Ok(m) ==> latest_of(old(self).fresh(final(self)), old(self).remembered()) == Some(m),
            r matches Ok(m) ==> (final(self).remembered() matches Some(v) && cloned(m, v)),
            r is Err ==> final(self).remembered() is None,
            old(self).wf() ==> final(self).wf(),
    {
        let ghost start = *self;
        let actual = self.opt.take();
        let res = self.recv_last(actual);
        let r = match res {
            Ok(m) => {
                self.opt = Some(m.clone());
                Ok(m)
            },
            Err(e) => Err(e),
        };
        proof {
            if start.wf() {
                start.lemma_keeps_wf(self, read_of(r));
            }
        }
        r
    }

    /// Answers the latest packet of the channel, or the remembered one when
    /// none is waiting; before the first packet, with none waiting, answers
    /// the channel's refusal and remembers nothing. It never blocks. A packet
    /// answered is remembered (as a clone) for the next call.
    pub fn try_recv(&mut self) -> (r: Result<T, TryRecvError>)
        ensures
            old(self).extended_by(final(self)),
            drained(old(self).fresh(final(self))),
            old(self).waited(final(self)) == 0,
            r is Ok <==> latest_of(old(self).fresh(final(self)), old(self).remembered()) is Some,
            r matches Ok(m) ==> latest_of(old(self).fresh(final(self)), old(self).remembered()) == Some(m),
            r matches Ok(m) ==> (final(self).remembered() matches Some(v) && cloned(m, v)),
            r is Err ==> final(self).remembered() is None,
            old(self).wf() ==> final(self).wf(),
    {
        let ghost start = *self;
        let actual = self.opt.take();
        let res = self.try_recv_last(actual);
        let r = match res {
            Ok(m) => {
                self.opt = Some(m.clone());
                Ok(m)
            },
            Err(e) => Err(e),
        };
        proof {
            if start.wf() {
                start.lemma_keeps_wf(self, read_of(r));
            }
        }
        r
    }
}

/// Once an option receiver has been handed a packet, it always has one to
/// answer, whatever the channel answers next: `recv` and `try_recv` no
/// longer fail.
pub proof fn law_remembering_receiver_answers<T>(o: OptionReceiver<T>, fresh: Seq<Option<T>>)
    requires
        o.wf(),
        latest_of(o.reads(), None) is Some,
    ensures
        latest_of(fresh, o.remembered()) is Some,
    decreases fresh.len(),
{
    if fresh.len() > 0 {
        law_remembering_receiver_answers(o, fresh.drop_last());
    }
}

/// A drain that found packets answers the last of them: every packet before
/// it is dropped.
pub proof fn law_latest_packet_wins<T>(fresh: Seq<Option<T>>, init: Option<T>)
    requires
        drained(fresh),
        fresh.len() >= 2,
        fresh.last() is None,
    ensures
        latest_of(fresh, init) == fresh[fresh.len() - 2],
        fresh[fresh.len() - 2] is Some,
{
    reveal_with_fuel(latest_of, 2);
    assert(fresh[fresh.len() - 2] is Some);
    assert(fresh.drop_last().last() == fresh[fresh.len() - 2]);
}

/// A drain that found no packet answers what it started from.
pub proof fn law_empty_drain_answers_start<T>(fresh: Seq<Option<T>>, init: Option<T>)
    requires
        drained(fresh),
        fresh.len() == 1,
    ensures
        latest_of(fresh, init) == init,
{
    reveal_with_fuel(latest_of, 2);
    assert(fresh.last() is None);
    assert(fresh.drop_last().len() == 0);
}

} // verus!
