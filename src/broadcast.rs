//! The per-project channel of messages to the editor: producers enqueue,
//! and the socket writer drains in order while a peer is connected.
use vstd::prelude::*;
use crate::message::{log_of, notify_of, Message, MessageLevel, MessageView, StatuslineState, Task};
use crate::text::owned;

verus! {

/// Connection state of a broadcast channel.
#[derive(Debug, Clone, Copy, PartialEq, Eq, Structural)]
pub enum ChannelState {
    Idle,
    Listening,
    Connected,
    Disconnected,
    Aborted,
}

/// The queue after a producer sends `m`: kept only while a peer is connected.
pub open spec fn sent(state: ChannelState, queue: Seq<MessageView>, m: MessageView) -> Seq<MessageView> {
    if state == ChannelState::Connected {
        queue.push(m)
    } else {
        queue
    }
}

/// The rule printed under a step: 73 dots.
pub open spec fn separator() -> Seq<char> {
    Seq::new(73, |i: int| '.')
}

/// A project's channel to the editor.
pub struct Broadcast {
    root: String,
    address: String,
    state: ChannelState,
    queue: Vec<Message>,
}

impl Broadcast {
    pub closed spec fn root_spec(&self) -> Seq<char> {
        self.root@
    }

    pub closed spec fn address_spec(&self) -> Seq<char> {
        self.address@
    }

    pub closed spec fn state(&self) -> ChannelState {
        self.state
    }

    /// Messages waiting for the writer, oldest first.
    pub closed spec fn pending(&self) -> Seq<MessageView> {
        self.queue@.map_values(|m: Message| m@)
    }

    /// A new channel for `root`, to be served at `address`.
    pub fn new(root: &str, address: &str) -> (r: Broadcast)
        ensures
            r.root_spec() == root@,
            r.address_spec() == address@,
            r.state() == ChannelState::Idle,
            r.pending() == Seq::<MessageView>::empty(),
    {
        let r = Broadcast { root: owned(root), address: owned(address), state: ChannelState::Idle, queue: Vec::new() };
        assert(r.pending() =~= Seq::<MessageView>::empty());
        r
    }

    /// The project root.
    pub fn root(&self) -> (r: &String)
        ensures
            r@ == self.root_spec(),
    {
        &self.root
    }

    /// The socket address chosen at creation.
    pub fn address(&self) -> (r: &String)
        ensures
            r@ == self.address_spec(),
    {
        &self.address
    }

    pub fn state_now(&self) -> (r: ChannelState)
        ensures
            r == self.state(),
    {
        self.state
    }

    /// The socket is bound and waits for a peer.
    pub fn listen(&mut self)
        ensures
            final(self).state() == (if old(self).state() == ChannelState::Idle {
                ChannelState::Listening
            } else {
                old(self).state()
            }),
            final(self).pending() == old(self).pending(),
            final(self).root_spec() == old(self).root_spec(),
            final(self).address_spec() == old(self).address_spec(),
    {
        if self.state == ChannelState::Idle {
            self.state = ChannelState::Listening;
        }
    }

    /// A peer connected; an aborted channel stays aborted.
    pub fn connect(&mut self)
        ensures
            final(self).state() == (if old(self).state() == ChannelState::Listening || old(self).state()
                == ChannelState::Disconnected {
                ChannelState::Connected
            } else {
                old(self).state()
            }),
            final(self).pending() == old(self).pending(),
            final(self).root_spec() == old(self).root_spec(),
            final(self).address_spec() == old(self).address_spec(),
    {
        if self.state == ChannelState::Listening || self.state == ChannelState::Disconnected {
            self.state = ChannelState::Connected;
        }
    }

    /// The peer went away: what it had not read is dropped.
    pub fn disconnect(&mut self)
        ensures
            final(self).state() == (if old(self).state() == ChannelState::Connected {
                ChannelState::Disconnected
            } else {
                old(self).state()
            }),
            old(self).state() == ChannelState::Connected ==> final(self).pending() == Seq::<MessageView>::empty(),
            old(self).state() != ChannelState::Connected ==> final(self).pending() == old(self).pending(),
            final(self).root_spec() == old(self).root_spec(),
            final(self).address_spec() == old(self).address_spec(),
    {
        if self.state == ChannelState::Connected {
            self.state = ChannelState::Disconnected;
            self.queue = Vec::new();
            assert(self.pending() =~= Seq::<MessageView>::empty());
        }
    }

    /// Close the channel for good, dropping what is pending.
    pub fn abort(&mut self)
        ensures
            final(self).state() == ChannelState::Aborted,
            final(self).pending() == Seq::<MessageView>::empty(),
            final(self).root_spec() == old(self).root_spec(),
            final(self).address_spec() == old(self).address_spec(),
    {
        self.state = ChannelState::Aborted;
        self.queue = Vec::new();
        assert(self.pending() =~= Seq::<MessageView>::empty());
    }

    /// Enqueue a message while a peer is connected; otherwise it is
    /// dropped. Returns whether it was kept.
    pub fn send(&mut self, m: Message) -> (r: bool)
        ensures
            r == (old(self).state() == ChannelState::Connected),
            final(self).pending() == sent(old(self).state(), old(self).pending(), m@),
            final(self).state() == old(self).state(),
            final(self).root_spec() == old(self).root_spec(),
            final(self).address_spec() == old(self).address_spec(),
    {
        if self.state == ChannelState::Connected {
            self.queue.push(m);
            assert(self.pending() =~= old(self).pending().push(m@));
            true
        } else {
            false
        }
    }

    /// The oldest pending message, for the writer, while connected.
    pub fn next_message(&mut self) -> (r: Option<Message>)
        ensures
            r is Some <==> (old(self).state() == ChannelState::Connected && old(self).pending().len() > 0),
            r matches Some(m) ==> m@ == old(self).pending()[0] && final(self).pending()
                == old(self).pending().drop_first(),
            r is None ==> final(self).pending() == old(self).pending(),
            final(self).state() == old(self).state(),
            final(self).root_spec() == old(self).root_spec(),
            final(self).address_spec() == old(self).address_spec(),
    {
        if self.state == ChannelState::Connected && self.queue.len() > 0 {
            let m = self.queue.remove(0);
            assert(self.pending() =~= old(self).pending().drop_first());
            Some(m)
        } else {
            None
        }
    }

    pub fn success(&mut self, msg: &str)
        ensures
            final(self).pending() == sent(old(self).state(), old(self).pending(), notify_of(msg@, MessageLevel::Success)),
            final(self).state() == old(self).state(),
            final(self).root_spec() == old(self).root_spec(),
            final(self).address_spec() == old(self).address_spec(),
    {
        self.send(Message::notify(msg, MessageLevel::Success));
    }

    pub fn info(&mut self, msg: &str)
        ensures
            final(self).pending() == sent(old(self).state(), old(self).pending(), notify_of(msg@, MessageLevel::Info)),
            final(self).state() == old(self).state(),
            final(self).root_spec() == old(self).root_spec(),
            final(self).address_spec() == old(self).address_spec(),
    {
        self.send(Message::notify_info(msg));
    }

    pub fn error(&mut self, msg: &str)
        ensures
            final(self).pending() == sent(old(self).state(), old(self).pending(), notify_of(msg@, MessageLevel::Error)),
            final(self).state() == old(self).state(),
            final(self).root_spec() == old(self).root_spec(),
            final(self).address_spec() == old(self).address_spec(),
    {
        self.send(Message::notify_error(msg));
    }

    pub fn warn(&mut self, msg: &str)
        ensures
            final(self).pending() == sent(old(self).state(), old(self).pending(), notify_of(msg@, MessageLevel::Warn)),
            final(self).state() == old(self).state(),
            final(self).root_spec() == old(self).root_spec(),
            final(self).address_spec() == old(self).address_spec(),
    {
        self.send(Message::notify_warn(msg));
    }

    pub fn trace(&mut self, msg: &str)
        ensures
            final(self).pending() == sent(old(self).state(), old(self).pending(), notify_of(msg@, MessageLevel::Trace)),
            final(self).state() == old(self).state(),
            final(self).root_spec() == old(self).root_spec(),
            final(self).address_spec() == old(self).address_spec(),
    {
        self.send(Message::notify_trace(msg));
    }

    pub fn debug(&mut self, msg: &str)
        ensures
            final(self).pending() == sent(old(self).state(), old(self).pending(), notify_of(msg@, MessageLevel::Debug)),
            final(self).state() == old(self).state(),
            final(self).root_spec() == old(self).root_spec(),
            final(self).address_spec() == old(self).address_spec(),
    {
        self.send(Message::notify_debug(msg));
    }

    pub fn log_info(&mut self, msg: &str)
        ensures
            final(self).pending() == sent(old(self).state(), old(self).pending(), log_of(msg@, MessageLevel::Info)),
            final(self).state() == old(self).state(),
            final(self).root_spec() == old(self).root_spec(),
            final(self).address_spec() == old(self).address_spec(),
    {
        self.send(Message::log_info(msg));
    }

    pub fn log_error(&mut self, msg: &str)
        ensures
            final(self).pending() == sent(old(self).state(), old(self).pending(), log_of(msg@, MessageLevel::Error)),
            final(self).state() == old(self).state(),
            final(self).root_spec() == old(self).root_spec(),
            final(self).address_spec() == old(self).address_spec(),
    {
        self.send(Message::log_error(msg));
    }

    pub fn log_warn(&mut self, msg: &str)
        ensures
            final(self).pending() == sent(old(self).state(), old(self).pending(), log_of(msg@, MessageLevel::Warn)),
            final(self).state() == old(self).state(),
            final(self).root_spec() == old(self).root_spec(),
            final(self).address_spec() == old(self).address_spec(),
    {
        self.send(Message::log_warn(msg));
    }

    pub fn log_trace(&mut self, msg: &str)
        ensures
            final(self).pending() == sent(old(self).state(), old(self).pending(), log_of(msg@, MessageLevel::Trace)),
            final(self).state() == old(self).state(),
            final(self).root_spec() == old(self).root_spec(),
            final(self).address_spec() == old(self).address_spec(),
    {
        self.send(Message::log_trace(msg));
    }

    pub fn log_debug(&mut self, msg: &str)
        ensures
            final(self).pending() == sent(old(self).state(), old(self).pending(), log_of(msg@, MessageLevel::Debug)),
            final(self).state() == old(self).state(),
            final(self).root_spec() == old(self).root_spec(),
            final(self).address_spec() == old(self).address_spec(),
    {
        self.send(Message::log_debug(msg));
    }

    /// A header line followed by a rule of dots.
    pub fn log_step(&mut self, msg: &str)
        ensures
            final(self).pending() == sent(
                old(self).state(),
                sent(old(self).state(), old(self).pending(), log_of(msg@, MessageLevel::Info)),
                log_of(separator(), MessageLevel::Info),
            ),
            final(self).state() == old(self).state(),
            final(self).root_spec() == old(self).root_spec(),
            final(self).address_spec() == old(self).address_spec(),
    {
        let sep = separator_line();
        self.log_info(msg);
        self.log_info(sep.as_str());
    }

    /// A rule of dots.
    pub fn log_separator(&mut self)
        ensures
            final(self).pending() == sent(old(self).state(), old(self).pending(), log_of(separator(), MessageLevel::Info)),
            final(self).state() == old(self).state(),
            final(self).root_spec() == old(self).root_spec(),
            final(self).address_spec() == old(self).address_spec(),
    {
        let sep = separator_line();
        self.log_info(sep.as_str());
    }

    pub fn update_statusline(&mut self, state: StatuslineState)
        ensures
            final(self).pending() == sent(old(self).state(), old(self).pending(), MessageView::Execute(Task::UpdateStatusline(state))),
            final(self).state() == old(self).state(),
            final(self).root_spec() == old(self).root_spec(),
            final(self).address_spec() == old(self).address_spec(),
    {
        self.send(Message::Execute(Task::UpdateStatusline(state)));
    }

    pub fn open_logger(&mut self)
        ensures
            final(self).pending() == sent(old(self).state(), old(self).pending(), MessageView::Execute(Task::OpenLogger)),
            final(self).state() == old(self).state(),
            final(self).root_spec() == old(self).root_spec(),
            final(self).address_spec() == old(self).address_spec(),
    {
        self.send(Message::Execute(Task::OpenLogger));
    }

    pub fn reload_lsp_server(&mut self)
        ensures
            final(self).pending() == sent(old(self).state(), old(self).pending(), MessageView::Execute(Task::ReloadLspServer)),
            final(self).state() == old(self).state(),
            final(self).root_spec() == old(self).root_spec(),
            final(self).address_spec() == old(self).address_spec(),
    {
        self.send(Message::Execute(Task::ReloadLspServer));
    }
}

/// The rule of dots printed under a step.
fn separator_line() -> (r: String)
    ensures
        r@ == separator(),
{
    let mut s = String::new();
    let mut i: usize = 0;
    while i < 73
        invariant
            i <= 73,
            s@ == Seq::new(i as nat, |k: int| '.'),
        decreases 73 - i,
    {
        s.append(".");
        i = i + 1;
        proof {
            reveal_strlit(".");
        }
        assert(s@ =~= Seq::new(i as nat, |k: int| '.'));
    }
    s
}

/// The queue after sending each of `ms` in turn in state `state`.
pub open spec fn sent_all(state: ChannelState, queue: Seq<MessageView>, ms: Seq<MessageView>) -> Seq<MessageView>
    decreases ms.len(),
{
    if ms.len() == 0 {
        queue
    } else {
        sent(state, sent_all(state, queue, ms.drop_last()), ms.last())
    }
}

/// The messages that `n` successive takes from the front of `queue` hand out.
pub open spec fn taken(queue: Seq<MessageView>, n: nat) -> Seq<MessageView>
    decreases n,
{
    if n == 0 || queue.len() == 0 {
        Seq::empty()
    } else {
        seq![queue[0]] + taken(queue.drop_first(), (n - 1) as nat)
    }
}

proof fn lemma_sent_all_connected(queue: Seq<MessageView>, ms: Seq<MessageView>)
    ensures
        sent_all(ChannelState::Connected, queue, ms) == queue + ms,
    decreases ms.len(),
{
    if ms.len() > 0 {
        lemma_sent_all_connected(queue, ms.drop_last());
        assert(queue + ms =~= (queue + ms.drop_last()).push(ms.last()));
    }
}

proof fn lemma_taken_all(q: Seq<MessageView>)
    ensures
        taken(q, q.len()) == q,
    decreases q.len(),
{
    if q.len() > 0 {
        lemma_taken_all(q.drop_first());
        assert(seq![q[0]] + q.drop_first() =~= q);
    }
}

/// Messages sent while the peer stays connected are handed to the writer
/// each exactly once, in the order they were sent, and each goes out as
/// its JSON object followed by a newline (`Message::to_json_line`).
pub proof fn connected_sends_arrive_in_order(ms: Seq<MessageView>)
    ensures
        taken(sent_all(ChannelState::Connected, Seq::empty(), ms), ms.len()) == ms,
{
    lemma_sent_all_connected(Seq::empty(), ms);
    assert(Seq::<MessageView>::empty() + ms =~= ms);
    lemma_taken_all(ms);
}

} // verus!
