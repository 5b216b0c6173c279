//! The worker: the single consumer of the mailbox. It takes one command at a
//! time, in mailbox order, and decides what to do with it.
use vstd::prelude::*;
use vstd::string::*;
use std::sync::mpsc::Sender;
use crate::clef::clef_body;
use crate::codec::{Envelope, is_startup, now_rfc3339, startup_envelope};
use crate::transport::{DeliveryError, Request};

verus! {

/// What producers place on the mailbox.
pub enum Command {
    /// Deliver one envelope.
    Deliver(Envelope),
    /// Stop once everything before this command was handled, and signal on
    /// the reply channel.
    Shutdown(Sender<()>),
}

#[derive(Clone, Copy, Debug, PartialEq, Eq, Structural)]
pub enum WorkerState {
    Running,
    Stopped,
}

/// What the worker's runner does next.
pub enum Action {
    /// Post this request; whatever comes back, take the next command.
    Post(Request),
    /// Signal on this channel, then stop.
    Acknowledge(Sender<()>),
    /// The mailbox is closed: stop.
    Exit,
}

/// None of `cmds` is a shutdown.
pub open spec fn only_deliveries(cmds: Seq<Command>) -> bool {
    forall|i: int| 0 <= i < cmds.len() ==> #[trigger] cmds[i] is Deliver
}

/// The envelopes attempted when the worker takes `cmds` in order: each
/// delivery up to the first shutdown, in mailbox order.
pub open spec fn attempts(cmds: Seq<Command>) -> Seq<Envelope>
    decreases cmds.len(),
{
    if cmds.len() == 0 {
        Seq::empty()
    } else {
        match cmds[0] {
            Command::Deliver(e) => seq![e] + attempts(cmds.subrange(1, cmds.len() as int)),
            Command::Shutdown(_) => Seq::empty(),
        }
    }
}

proof fn lemma_single_delivery(e: Envelope)
    ensures
        attempts(seq![Command::Deliver(e)]) == seq![e],
        only_deliveries(seq![Command::Deliver(e)]),
{
    let d = seq![Command::Deliver(e)];
    assert(d.subrange(1, 1) =~= Seq::<Command>::empty());
    assert(attempts(Seq::<Command>::empty()) == Seq::<Envelope>::empty());
    assert(attempts(d) == seq![e] + attempts(d.subrange(1, 1)));
    assert(seq![e] + Seq::<Envelope>::empty() =~= seq![e]);
}

/// Without a shutdown in `a`, the worker goes on from `a` into `b`.
pub proof fn lemma_attempts_concat(a: Seq<Command>, b: Seq<Command>)
    requires
        only_deliveries(a),
    ensures
        attempts(a + b) == attempts(a) + attempts(b),
    decreases a.len(),
{
    if a.len() == 0 {
        assert(a + b =~= b);
        assert(attempts(a) + attempts(b) =~= attempts(b));
    } else {
        let rest = a.subrange(1, a.len() as int);
        assert(a[0] is Deliver);
        assert(only_deliveries(rest)) by {
            assert forall|i: int| 0 <= i < rest.len() implies #[trigger] rest[i] is Deliver by {
                assert(rest[i] == a[i + 1]);
            }
        }
        lemma_attempts_concat(rest, b);
        assert((a + b).subrange(1, (a + b).len() as int) =~= rest + b);
        let e = a[0]->Deliver_0;
        assert((a + b)[0] == a[0]);
        assert(attempts(a + b) == seq![e] + attempts(rest + b));
        assert(attempts(a) == seq![e] + attempts(rest));
        assert(seq![e] + (attempts(rest) + attempts(b)) =~= (seq![e] + attempts(rest)) + attempts(b));
    }
}

/// Every delivery in a shutdown-free sequence is attempted, in order.
pub proof fn lemma_all_attempted(cmds: Seq<Command>)
    requires
        only_deliveries(cmds),
    ensures
        attempts(cmds).len() == cmds.len(),
        forall|i: int| 0 <= i < cmds.len() ==> cmds[i] == Command::Deliver(#[trigger] attempts(cmds)[i]),
    decreases cmds.len(),
{
    if cmds.len() > 0 {
        let rest = cmds.subrange(1, cmds.len() as int);
        assert(cmds[0] is Deliver);
        assert(only_deliveries(rest)) by {
            assert forall|i: int| 0 <= i < rest.len() implies #[trigger] rest[i] is Deliver by {
                assert(rest[i] == cmds[i + 1]);
            }
        }
        lemma_all_attempted(rest);
        assert forall|i: int| 0 <= i < cmds.len() implies cmds[i] == Command::Deliver(#[trigger] attempts(cmds)[i]) by {
            if i > 0 {
                assert(cmds[i] == rest[i - 1]);
            }
        }
    }
}

/// Per-producer order: when one producer enqueues `a` and later `b`, with
/// no shutdown before `b`, the worker attempts `a` before `b`, and whatever
/// other producers interleaved stays between them in mailbox order.
pub proof fn lemma_producer_order(
    s1: Seq<Command>,
    a: Envelope,
    s2: Seq<Command>,
    b: Envelope,
    s3: Seq<Command>,
)
    requires
        only_deliveries(s1),
        only_deliveries(s2),
    ensures
        attempts(s1 + seq![Command::Deliver(a)] + s2 + seq![Command::Deliver(b)] + s3)
            == attempts(s1) + seq![a] + attempts(s2) + seq![b] + attempts(s3),
        ({
            let t = attempts(s1 + seq![Command::Deliver(a)] + s2 + seq![Command::Deliver(b)] + s3);
            let i = s1.len() as int;
            let j = (s1.len() + 1 + s2.len()) as int;
            i < j && t[i] == a && t[j] == b
        }),
{
    let da = seq![Command::Deliver(a)];
    let db = seq![Command::Deliver(b)];
    lemma_single_delivery(a);
    lemma_single_delivery(b);
    let p1 = s1 + da;
    assert(only_deliveries(p1)) by {
        assert forall|i: int| 0 <= i < p1.len() implies #[trigger] p1[i] is Deliver by {
            if i < s1.len() {
                assert(p1[i] == s1[i]);
            }
        }
    }
    let p2 = p1 + s2;
    assert(only_deliveries(p2)) by {
        assert forall|i: int| 0 <= i < p2.len() implies #[trigger] p2[i] is Deliver by {
            if i < p1.len() {
                assert(p2[i] == p1[i]);
            } else {
                assert(p2[i] == s2[i - p1.len()]);
            }
        }
    }
    let p3 = p2 + db;
    assert(only_deliveries(p3)) by {
        assert forall|i: int| 0 <= i < p3.len() implies #[trigger] p3[i] is Deliver by {
            if i < p2.len() {
                assert(p3[i] == p2[i]);
            }
        }
    }
    lemma_attempts_concat(s1, da);
    lemma_attempts_concat(p1, s2);
    lemma_attempts_concat(p2, db);
    lemma_attempts_concat(p3, s3);
    lemma_all_attempted(s1);
    lemma_all_attempted(s2);
    let t = attempts(p3 + s3);
    assert(t == attempts(s1) + seq![a] + attempts(s2) + seq![b] + attempts(s3));
    assert(t[s1.len() as int] == a);
    assert(t[(s1.len() + 1 + s2.len()) as int] == b);
}

/// Flush: when a shutdown follows the commands `pre`, every delivery in
/// `pre` is attempted, in order, before the worker stops, and nothing
/// enqueued after the shutdown is attempted.
pub proof fn lemma_shutdown_drains(pre: Seq<Command>, reply: Sender<()>, post: Seq<Command>)
    requires
        only_deliveries(pre),
    ensures
        attempts(pre + seq![Command::Shutdown(reply)] + post) == attempts(pre),
        attempts(pre).len() == pre.len(),
        forall|i: int| 0 <= i < pre.len() ==> pre[i] == Command::Deliver(#[trigger] attempts(pre)[i]),
{
    let tail = seq![Command::Shutdown(reply)] + post;
    lemma_attempts_concat(pre, tail);
    assert(pre + seq![Command::Shutdown(reply)] + post =~= pre + tail);
    assert(tail[0] is Shutdown);
    assert(attempts(tail) =~= Seq::<Envelope>::empty());
    assert(attempts(pre) + attempts(tail) =~= attempts(pre));
    lemma_all_attempted(pre);
}

/// The worker's decision state: the destination, and the ghost record of
/// the commands taken so far.
pub struct Worker {
    url: String,
    api_key: String,
    state: WorkerState,
    started: bool,
    received: Ghost<Seq<Command>>,
}

impl Worker {
    pub closed spec fn url(&self) -> Seq<char> {
        self.url@
    }

    pub closed spec fn api_key(&self) -> Seq<char> {
        self.api_key@
    }

    pub closed spec fn state(&self) -> WorkerState {
        self.state
    }

    /// The start-up delivery succeeded.
    pub closed spec fn started(&self) -> bool {
        self.started
    }

    /// The commands taken so far, in the order taken.
    pub closed spec fn received(&self) -> Seq<Command> {
        self.received@
    }

    /// The envelopes attempted so far.
    pub open spec fn attempted(&self) -> Seq<Envelope> {
        attempts(self.received())
    }

    /// While running, no shutdown has been taken.
    pub closed spec fn wf(&self) -> bool {
        self.state == WorkerState::Running ==> only_deliveries(self.received@)
    }

    pub fn new(url: &str, api_key: &str) -> (r: Worker)
        ensures
            r.wf(),
            r.state() == WorkerState::Running,
            !r.started(),
            r.received() == Seq::<Command>::empty(),
            r.url() == url@,
            r.api_key() == api_key@,
    {
        Worker {
            url: String::from_str(url),
            api_key: String::from_str(api_key),
            state: WorkerState::Running,
            started: false,
            received: Ghost(Seq::empty()),
        }
    }

    pub fn is_running(&self) -> (r: bool)
        ensures
            r == (self.state() == WorkerState::Running),
    {
        self.state == WorkerState::Running
    }

    /// The request that announces a starting worker, sent before any
    /// command is taken.
    pub fn startup_request(&self, source: &str, thread: &str) -> (r: Request)
        ensures
            r.url@ == self.url(),
            r.api_key@ == self.api_key(),
            exists|e: Envelope| is_startup(e, source@, thread@, e.timestamp@) && r.body@ == clef_body(e),
    {
        let e = startup_envelope(source, thread, now_rfc3339());
        Request::for_envelope(self.url.as_str(), self.api_key.as_str(), &e)
    }

    /// Takes the outcome of the start-up request: a worker whose start-up
    /// delivery failed stops before taking any command, which closes the
    /// mailbox, so later sends and flushes report the failure.
    pub fn start(&mut self, first: Result<(), DeliveryError>) -> (r: Result<(), DeliveryError>)
        requires
            old(self).wf(),
            old(self).state() == WorkerState::Running,
            !old(self).started(),
        ensures
            final(self).started() == (first is Ok),
            final(self).wf(),
            final(self).url() == old(self).url(),
            final(self).api_key() == old(self).api_key(),
            final(self).received() == old(self).received(),
            r is Ok <==> first is Ok,
            final(self).state() == (if first is Ok { WorkerState::Running } else { WorkerState::Stopped }),
    {
        match first {
            Ok(()) => {
                self.started = true;
                Ok(())
            },
            Err(e) => {
                self.state = WorkerState::Stopped;
                Err(e)
            },
        }
    }

    /// Takes the next event: a command, or `None` when the mailbox is closed
    /// and empty.
    pub fn step(&mut self, event: Option<Command>) -> (a: Action)
        requires
            old(self).wf(),
            old(self).started(),
            old(self).state() == WorkerState::Running,
        ensures
            final(self).wf(),
            final(self).started(),
            final(self).url() == old(self).url(),
            final(self).api_key() == old(self).api_key(),
            match event {
                Some(c) => final(self).received() == old(self).received().push(c),
                None => final(self).received() == old(self).received(),
            },
            match event {
                Some(Command::Deliver(e)) => {
                    &&& final(self).state() == WorkerState::Running
                    &&& final(self).attempted() == old(self).attempted().push(e)
                    &&& a is Post
                    &&& a->Post_0.url@ == old(self).url()
                    &&& a->Post_0.api_key@ == old(self).api_key()
                    &&& a->Post_0.body@ == clef_body(e)
                },
                Some(Command::Shutdown(reply)) => {
                    &&& final(self).state() == WorkerState::Stopped
                    &&& final(self).attempted() == old(self).attempted()
                    &&& a == Action::Acknowledge(reply)
                },
                None => {
                    &&& final(self).state() == WorkerState::Stopped
                    &&& a is Exit
                },
            },
    {
        match event {
            Some(Command::Deliver(e)) => {
                proof {
                    let c = Command::Deliver(e);
                    lemma_single_delivery(e);
                    lemma_attempts_concat(self.received@, seq![c]);
                    assert(self.received@ + seq![c] =~= self.received@.push(c));
                    self.received@ = self.received@.push(c);
                    assert(only_deliveries(self.received@)) by {
                        assert forall|i: int| 0 <= i < self.received@.len() implies #[trigger] self.received@[i] is Deliver by {
                            if i < old(self).received@.len() {
                                assert(self.received@[i] == old(self).received@[i]);
                            }
                        }
                    }
                }
                let req = Request::for_envelope(self.url.as_str(), self.api_key.as_str(), &e);
                Action::Post(req)
            },
            Some(Command::Shutdown(reply)) => {
                proof {
                    let c = Command::Shutdown(reply);
                    lemma_shutdown_drains(self.received@, reply, Seq::empty());
                    assert(self.received@ + seq![c] + Seq::<Command>::empty() =~= self.received@.push(c));
                    self.received@ = self.received@.push(c);
                }
                self.state = WorkerState::Stopped;
                Action::Acknowledge(reply)
            },
            None => {
                self.state = WorkerState::Stopped;
                Action::Exit
            },
        }
    }
}

} // verus!
