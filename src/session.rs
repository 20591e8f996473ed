//! The playback session controller: a single-consumer state machine that
//! turns actions and backend events into backend commands, one at a time.
//!
//! Every sequence started by a `Play` action gets a fresh ticket. Backend
//! events carry the ticket of the sequence they belong to, so events of a
//! sequence that a newer `Play` preempted are recognised and ignored.
use vstd::prelude::*;
use crate::media::{MediaKind, MediaModel, MediaReference, normalize, normalize_model};
use crate::resolver::{ActionModel, ResolvedAction};

verus! {

/// The state of the playback session.
#[derive(Clone, Copy, Debug, PartialEq, Eq, Structural)]
pub enum SessionState {
    Idle,
    Playing,
    Paused,
}

/// What the controller asks of the backend or the mixer.
#[derive(Debug)]
pub enum Command {
    /// Stop the item that is loaded, abandoning its sequence.
    Stop,
    /// Load `item`; start playing it at once where `start` holds, else keep
    /// it paused. Its end is to be reported with `ticket`.
    Load { ticket: u64, item: String, start: bool },
    /// Fetch the items of an album or playlist, to be reported with `ticket`.
    Fetch { ticket: u64, reference: MediaReference },
    Pause,
    Resume,
    VolumeUp,
    VolumeDown,
}

/// The mathematical content of a `Command`.
pub enum CommandModel {
    Stop,
    Load { ticket: u64, item: Seq<char>, start: bool },
    Fetch { ticket: u64, reference: MediaModel },
    Pause,
    Resume,
    VolumeUp,
    VolumeDown,
}

impl View for Command {
    type V = CommandModel;

    open spec fn view(&self) -> CommandModel {
        match self {
            Command::Stop => CommandModel::Stop,
            Command::Load { ticket, item, start } => CommandModel::Load {
                ticket: *ticket,
                item: item@,
                start: *start,
            },
            Command::Fetch { ticket, reference } => CommandModel::Fetch {
                ticket: *ticket,
                reference: reference@,
            },
            Command::Pause => CommandModel::Pause,
            Command::Resume => CommandModel::Resume,
            Command::VolumeUp => CommandModel::VolumeUp,
            Command::VolumeDown => CommandModel::VolumeDown,
        }
    }
}

pub open spec fn commands_view(cmds: Seq<Command>) -> Seq<CommandModel> {
    cmds.map_values(|c: Command| c@)
}

pub open spec fn strings_view(v: Seq<String>) -> Seq<Seq<char>> {
    v.map_values(|s: String| s@)
}

/// The mathematical content of a session: the scheme of canonical references,
/// the state, the queue of item ids, the position of the current item in it,
/// and the ticket of the current sequence. While a collection is being
/// fetched the state is `Playing` or `Paused` and the queue is empty.
pub struct SessionModel {
    pub scheme: Seq<char>,
    pub state: SessionState,
    pub queue: Seq<Seq<char>>,
    pub position: nat,
    pub ticket: u64,
}

pub open spec fn session_wf(s: SessionModel) -> bool {
    if s.state == SessionState::Idle {
        s.queue.len() == 0 && s.position == 0
    } else {
        (s.queue.len() == 0 && s.position == 0) || s.position < s.queue.len()
    }
}

/// The ticket that follows `t`.
pub open spec fn next_ticket(t: u64) -> u64 {
    if t == u64::MAX {
        0
    } else {
        (t + 1) as u64
    }
}

/// `s` emptied and idle, with ticket `ticket`.
pub open spec fn idle_with(s: SessionModel, ticket: u64) -> SessionModel {
    SessionModel { state: SessionState::Idle, queue: Seq::empty(), position: 0, ticket: ticket, ..s }
}

/// What one action does to the session, and the commands it issues.
///
/// `Play` preempts: where a sequence is in progress the backend is stopped
/// first; then the reference is normalized and a new sequence begins under a
/// new ticket (a track is loaded at once, an album or playlist is fetched),
/// or, for an unknown reference, the session goes idle. `Pause` acts only
/// while playing and `Resume` only while paused; volume actions change no
/// state; `Unknown` does nothing.
pub open spec fn action_step(s: SessionModel, a: ActionModel) -> (SessionModel, Seq<CommandModel>) {
    match a {
        ActionModel::Play(r) => {
            let m = normalize_model(s.scheme, r);
            let t = next_ticket(s.ticket);
            let stop: Seq<CommandModel> = if s.state == SessionState::Idle {
                seq![]
            } else {
                seq![CommandModel::Stop]
            };
            if m.kind == MediaKind::Unknown {
                (idle_with(s, t), stop)
            } else if m.kind == MediaKind::Track {
                (
                    SessionModel {
                        state: SessionState::Playing,
                        queue: seq![m.id],
                        position: 0,
                        ticket: t,
                        ..s
                    },
                    stop.push(CommandModel::Load { ticket: t, item: m.id, start: true }),
                )
            } else {
                (
                    SessionModel {
                        state: SessionState::Playing,
                        queue: Seq::empty(),
                        position: 0,
                        ticket: t,
                        ..s
                    },
                    stop.push(CommandModel::Fetch { ticket: t, reference: m }),
                )
            }
        },
        ActionModel::Pause => if s.state == SessionState::Playing {
            (SessionModel { state: SessionState::Paused, ..s }, seq![CommandModel::Pause])
        } else {
            (s, seq![])
        },
        ActionModel::Resume => if s.state == SessionState::Paused {
            (SessionModel { state: SessionState::Playing, ..s }, seq![CommandModel::Resume])
        } else {
            (s, seq![])
        },
        ActionModel::VolumeUp => (s, seq![CommandModel::VolumeUp]),
        ActionModel::VolumeDown => (s, seq![CommandModel::VolumeDown]),
        ActionModel::Unknown => (s, seq![]),
    }
}

/// Whether the session waits for the items of a collection under `ticket`.
pub open spec fn awaits_items(s: SessionModel, ticket: u64) -> bool {
    ticket == s.ticket && s.state != SessionState::Idle && s.queue.len() == 0
}

/// What the arrival of a collection's items does. Where the session awaits
/// them, an empty list makes it idle, and otherwise the list becomes the queue
/// and its first item is loaded (started unless paused). Items that nobody
/// awaits change nothing.
pub open spec fn loaded_step(s: SessionModel, ticket: u64, items: Seq<Seq<char>>) -> (
    SessionModel,
    Seq<CommandModel>,
) {
    if !awaits_items(s, ticket) {
        (s, seq![])
    } else if items.len() == 0 {
        (idle_with(s, s.ticket), seq![])
    } else {
        (
            SessionModel { queue: items, position: 0, ..s },
            seq![
                CommandModel::Load {
                    ticket: ticket,
                    item: items[0],
                    start: s.state == SessionState::Playing,
                },
            ],
        )
    }
}

/// Whether `ticket` names the sequence whose item is loaded now.
pub open spec fn is_current_item(s: SessionModel, ticket: u64) -> bool {
    ticket == s.ticket && s.state != SessionState::Idle && s.queue.len() > 0
}

/// What the end of the current item does: the next item of the queue is loaded
/// (started unless paused), or, after the last one, the session goes idle.
/// The end of an item of another sequence changes nothing.
pub open spec fn finished_step(s: SessionModel, ticket: u64) -> (SessionModel, Seq<CommandModel>) {
    if !is_current_item(s, ticket) {
        (s, seq![])
    } else if s.position + 1 < s.queue.len() {
        (
            SessionModel { position: s.position + 1, ..s },
            seq![
                CommandModel::Load {
                    ticket: ticket,
                    item: s.queue[s.position + 1 as int],
                    start: s.state == SessionState::Playing,
                },
            ],
        )
    } else {
        (idle_with(s, s.ticket), seq![])
    }
}

/// The playback session; the controller's loop is its only writer.
pub struct PlaybackSession {
    scheme: String,
    state: SessionState,
    queue: Vec<String>,
    position: usize,
    ticket: u64,
}

impl View for PlaybackSession {
    type V = SessionModel;

    closed spec fn view(&self) -> SessionModel {
        SessionModel {
            scheme: self.scheme@,
            state: self.state,
            queue: strings_view(self.queue@),
            position: self.position as nat,
            ticket: self.ticket,
        }
    }
}

fn following_ticket(t: u64) -> (r: u64)
    ensures
        r == next_ticket(t),
{
    if t == u64::MAX {
        0
    } else {
        t + 1
    }
}

impl PlaybackSession {
    pub open spec fn wf(&self) -> bool {
        session_wf(self@)
    }

    /// An idle session with an empty queue; canonical references use `scheme`.
    pub fn new(scheme: &str) -> (r: PlaybackSession)
        ensures
            r.wf(),
            r@ == (SessionModel {
                scheme: scheme@,
                state: SessionState::Idle,
                queue: Seq::empty(),
                position: 0,
                ticket: 0,
            }),
    {
        let r = PlaybackSession {
            scheme: String::from_str(scheme),
            state: SessionState::Idle,
            queue: Vec::new(),
            position: 0,
            ticket: 0,
        };
        assert(strings_view(r.queue@) =~= Seq::<Seq<char>>::empty());
        r
    }

    pub fn state(&self) -> (r: SessionState)
        ensures
            r == self@.state,
    {
        self.state
    }

    /// The ticket of the current sequence.
    pub fn ticket(&self) -> (r: u64)
        ensures
            r == self@.ticket,
    {
        self.ticket
    }

    fn go_idle(&mut self, ticket: u64)
        ensures
            final(self)@ == idle_with(old(self)@, ticket),
    {
        self.state = SessionState::Idle;
        self.queue = Vec::new();
        self.position = 0;
        self.ticket = ticket;
        assert(strings_view(self.queue@) =~= Seq::<Seq<char>>::empty());
    }

    /// Carries out one action; returns the commands to perform, in order.
    pub fn handle_action(&mut self, action: ResolvedAction) -> (cmds: Vec<Command>)
        requires
            old(self).wf(),
        ensures
            final(self).wf(),
            final(self)@ == action_step(old(self)@, action@).0,
            commands_view(cmds@) == action_step(old(self)@, action@).1,
    {
        let mut cmds: Vec<Command> = Vec::new();
        match action {
            ResolvedAction::Play(r) => {
                let m = normalize(self.scheme.as_str(), r.as_str());
                let t = following_ticket(self.ticket);
                if self.state != SessionState::Idle {
                    cmds.push(Command::Stop);
                }
                let ghost stop = commands_view(cmds@);
                if m.kind == MediaKind::Unknown {
                    self.go_idle(t);
                } else if m.kind == MediaKind::Track {
                    let mut queue: Vec<String> = Vec::new();
                    queue.push(m.id.clone());
                    self.state = SessionState::Playing;
                    self.queue = queue;
                    self.position = 0;
                    self.ticket = t;
                    assert(strings_view(self.queue@) =~= seq![m.id@]);
                    cmds.push(Command::Load { ticket: t, item: m.id, start: true });
                    assert(commands_view(cmds@) =~= stop.push(
                        CommandModel::Load { ticket: t, item: m@.id, start: true },
                    ));
                } else {
                    self.state = SessionState::Playing;
                    self.queue = Vec::new();
                    self.position = 0;
                    self.ticket = t;
                    assert(strings_view(self.queue@) =~= Seq::<Seq<char>>::empty());
                    cmds.push(Command::Fetch { ticket: t, reference: m });
                    assert(commands_view(cmds@) =~= stop.push(
                        CommandModel::Fetch { ticket: t, reference: m@ },
                    ));
                }
                assert(stop =~= (if old(self)@.state == SessionState::Idle {
                    Seq::<CommandModel>::empty()
                } else {
                    seq![CommandModel::Stop]
                }));
            },
            ResolvedAction::Pause => {
                if self.state == SessionState::Playing {
                    self.state = SessionState::Paused;
                    cmds.push(Command::Pause);
                }
            },
            ResolvedAction::Resume => {
                if self.state == SessionState::Paused {
                    self.state = SessionState::Playing;
                    cmds.push(Command::Resume);
                }
            },
            ResolvedAction::VolumeUp => {
                cmds.push(Command::VolumeUp);
            },
            ResolvedAction::VolumeDown => {
                cmds.push(Command::VolumeDown);
            },
            ResolvedAction::Unknown => {},
        }
        assert(commands_view(cmds@) =~= action_step(old(self)@, action@).1);
        cmds
    }

    /// Takes the items fetched for the collection of sequence `ticket`.
    pub fn collection_loaded(&mut self, ticket: u64, items: Vec<String>) -> (cmds: Vec<Command>)
        requires
            old(self).wf(),
        ensures
            final(self).wf(),
            final(self)@ == loaded_step(old(self)@, ticket, strings_view(items@)).0,
            commands_view(cmds@) == loaded_step(old(self)@, ticket, strings_view(items@)).1,
    {
        let mut cmds: Vec<Command> = Vec::new();
        if ticket != self.ticket || self.state == SessionState::Idle || self.queue.len() != 0 {
            assert(commands_view(cmds@) =~= Seq::<CommandModel>::empty());
            return cmds;
        }
        if items.len() == 0 {
            let t = self.ticket;
            self.go_idle(t);
            assert(commands_view(cmds@) =~= Seq::<CommandModel>::empty());
            return cmds;
        }
        let first = items[0].clone();
        let start = self.state == SessionState::Playing;
        self.queue = items;
        self.position = 0;
        cmds.push(Command::Load { ticket: ticket, item: first, start: start });
        assert(commands_view(cmds@) =~= loaded_step(old(self)@, ticket, strings_view(items@)).1);
        cmds
    }

    /// Takes the end of the item loaded under `ticket`.
    pub fn track_finished(&mut self, ticket: u64) -> (cmds: Vec<Command>)
        requires
            old(self).wf(),
        ensures
            final(self).wf(),
            final(self)@ == finished_step(old(self)@, ticket).0,
            commands_view(cmds@) == finished_step(old(self)@, ticket).1,
    {
        let mut cmds: Vec<Command> = Vec::new();
        if ticket != self.ticket || self.state == SessionState::Idle || self.queue.len() == 0 {
            assert(commands_view(cmds@) =~= Seq::<CommandModel>::empty());
            return cmds;
        }
        if self.position + 1 < self.queue.len() {
            self.position = self.position + 1;
            let item = self.queue[self.position].clone();
            let start = self.state == SessionState::Playing;
            cmds.push(Command::Load { ticket: ticket, item: item, start: start });
            assert(commands_view(cmds@) =~= finished_step(old(self)@, ticket).1);
        } else {
            let t = self.ticket;
            self.go_idle(t);
            assert(commands_view(cmds@) =~= Seq::<CommandModel>::empty());
        }
        cmds
    }
}

/// `Pause` on an idle session issues no command and changes nothing.
pub proof fn lemma_pause_when_idle(s: SessionModel)
    requires
        s.state == SessionState::Idle,
    ensures
        action_step(s, ActionModel::Pause) == (s, Seq::<CommandModel>::empty()),
{
    assert(action_step(s, ActionModel::Pause).1 =~= Seq::<CommandModel>::empty());
}

/// Preemption: `Play` of a playable reference while a sequence is in progress
/// first stops the backend and then begins the new sequence under a new
/// ticket. A track is loaded and started at once; a collection is fetched and
/// its first item is started when the items arrive. After that, events of
/// the earlier sequence change nothing, so none of its remaining items is
/// ever loaded.
pub proof fn lemma_preemption(s: SessionModel, r: Seq<char>, items: Seq<Seq<char>>)
    requires
        session_wf(s),
        s.state != SessionState::Idle,
        normalize_model(s.scheme, r).kind != MediaKind::Unknown,
    ensures
        ({
            let m = normalize_model(s.scheme, r);
            let s1 = action_step(s, ActionModel::Play(r)).0;
            let cmds = action_step(s, ActionModel::Play(r)).1;
            &&& cmds.len() == 2
            &&& cmds[0] == CommandModel::Stop
            &&& s1.state == SessionState::Playing
            &&& s1.ticket != s.ticket
            &&& m.kind == MediaKind::Track ==> {
                &&& cmds[1] == (CommandModel::Load { ticket: s1.ticket, item: m.id, start: true })
                &&& s1.queue == seq![m.id]
            }
            &&& m.kind != MediaKind::Track ==> {
                &&& cmds[1] == (CommandModel::Fetch { ticket: s1.ticket, reference: m })
                &&& s1.queue.len() == 0
                &&& items.len() > 0 ==> loaded_step(s1, s1.ticket, items).1 == seq![
                    CommandModel::Load { ticket: s1.ticket, item: items[0], start: true },
                ]
            }
            &&& finished_step(s1, s.ticket) == (s1, Seq::<CommandModel>::empty())
            &&& loaded_step(s1, s.ticket, items) == (s1, Seq::<CommandModel>::empty())
        }),
{
    let s1 = action_step(s, ActionModel::Play(r)).0;
    assert(finished_step(s1, s.ticket).1 =~= Seq::<CommandModel>::empty());
    assert(loaded_step(s1, s.ticket, items).1 =~= Seq::<CommandModel>::empty());
}

} // verus!
