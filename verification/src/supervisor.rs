//! The event loop's state machine: session lifecycle, the keep-alive
//! quiescent window, one command in flight at a time, and the buffering of
//! messages that arrive while the loop may not process them. The loop itself
//! performs no outside work: each step consumes one event and yields the
//! actions the surrounding shell must perform, in order.

use vstd::prelude::*;
use crate::bytes::copy_bytes;
use crate::command::{route, selection, Selected, eval_parts, compile_parts, Command};
use crate::graph::{GraphSpec, title_of, points_of, max_x, max_y, axis_end};
use crate::handlers::{eval_url_spec, markdown_link_spec, sandbox_body_spec, compile_reply_spec,
    eval_url, markdown_link, sandbox_body, compile_reply, parse_compile_response,
    parse_upload_response};
use crate::events::{classify, frame_class, FrameClass, IncomingEvent};
use crate::json::{json_str_field, json_bool_field};
use crate::text::{help_text, err_missing_block, err_compile, err_render, err_chart, err_upload,
    bare_eval, bare_comp, bare_graph, help_text_vec, err_missing_block_vec, err_compile_vec,
    err_render_vec, err_chart_vec, err_upload_vec};

verus! {

/// How many ticks of quiescence a liveness reply imposes.
pub const QUIESCENT_WINDOW: u64 = 15;

/// Where the transport session stands.
#[derive(Clone, Copy, PartialEq, Eq, Structural, Debug)]
pub enum SessionState {
    Disconnected,
    Connecting,
    Authenticated,
    Active,
}

/// The command in flight, if any: which external answer the loop is waiting
/// for, and the channel the eventual reply goes to.
pub enum Phase {
    Idle,
    AwaitSandbox { channel: Vec<u8> },
    AwaitImage { channel: Vec<u8> },
    AwaitRender { channel: Vec<u8> },
    AwaitUpload { channel: Vec<u8> },
}

/// The specification-level value of a [`Phase`].
pub enum PhaseModel {
    PIdle,
    PSandbox { channel: Seq<u8> },
    PImage { channel: Seq<u8> },
    PRender { channel: Seq<u8> },
    PUpload { channel: Seq<u8> },
}

impl View for Phase {
    type V = PhaseModel;

    open spec fn view(&self) -> PhaseModel {
        match self {
            Phase::Idle => PhaseModel::PIdle,
            Phase::AwaitSandbox { channel } => PhaseModel::PSandbox { channel: channel@ },
            Phase::AwaitImage { channel } => PhaseModel::PImage { channel: channel@ },
            Phase::AwaitRender { channel } => PhaseModel::PRender { channel: channel@ },
            Phase::AwaitUpload { channel } => PhaseModel::PUpload { channel: channel@ },
        }
    }
}

/// What the surrounding shell feeds the state machine.
pub enum Event {
    /// The process asks the loop to begin.
    Start,
    /// The transport session was established.
    Opened,
    /// One raw frame arrived.
    Frame { frame: Vec<u8> },
    /// Reading from the transport failed; the session is gone.
    ReadFailed,
    /// One time unit of the quiescent window elapsed.
    Tick,
    /// The sandbox call ended, with its body on HTTP success.
    SandboxDone { body: Option<Vec<u8>> },
    /// The equation image fetch ended.
    ImageFetched { ok: bool },
    /// The chart rendering ended.
    Rendered { ok: bool },
    /// The attachment upload ended, with its body on HTTP success.
    Uploaded { body: Option<Vec<u8>> },
}

/// What the shell must do, in order.
pub enum Action {
    /// Establish a transport session.
    Connect,
    /// Send the authenticate control frame.
    Authenticate,
    /// Send the liveness probe.
    Ping,
    /// Post a plain text message to a channel.
    PostText { channel: Vec<u8>, content: Vec<u8> },
    /// Post a message referencing an uploaded attachment.
    PostAttachment { channel: Vec<u8>, id: Vec<u8> },
    /// Post the body to the sandbox service.
    CallSandbox { body: Vec<u8> },
    /// Fetch the rendered equation.
    FetchImage { url: Vec<u8> },
    /// Store the fetched equation image.
    StoreImage,
    /// Draw the scatter plot.
    RenderChart { graph: GraphSpec },
    /// Upload the drawn chart.
    UploadChart,
}

/// The specification-level value of an [`Action`].
pub enum ActionModel {
    Connect,
    Authenticate,
    Ping,
    PostText { channel: Seq<u8>, content: Seq<u8> },
    PostAttachment { channel: Seq<u8>, id: Seq<u8> },
    CallSandbox { body: Seq<u8> },
    FetchImage { url: Seq<u8> },
    StoreImage,
    RenderChart { title: Seq<u8>, points: Seq<(i32, i32)>, x_end: i32, y_end: i32 },
    UploadChart,
}

impl View for Action {
    type V = ActionModel;

    open spec fn view(&self) -> ActionModel {
        match self {
            Action::Connect => ActionModel::Connect,
            Action::Authenticate => ActionModel::Authenticate,
            Action::Ping => ActionModel::Ping,
            Action::PostText { channel, content } => ActionModel::PostText {
                channel: channel@,
                content: content@,
            },
            Action::PostAttachment { channel, id } => ActionModel::PostAttachment {
                channel: channel@,
                id: id@,
            },
            Action::CallSandbox { body } => ActionModel::CallSandbox { body: body@ },
            Action::FetchImage { url } => ActionModel::FetchImage { url: url@ },
            Action::StoreImage => ActionModel::StoreImage,
            Action::RenderChart { graph } => ActionModel::RenderChart {
                title: graph.title@,
                points: graph.points@,
                x_end: graph.x_end,
                y_end: graph.y_end,
            },
            Action::UploadChart => ActionModel::UploadChart,
        }
    }
}

/// The models of a sequence of actions.
pub open spec fn models(actions: Seq<Action>) -> Seq<ActionModel> {
    actions.map_values(|a: Action| a@)
}

/// A message buffered while the loop was quiescent or busy.
pub struct PendingMessage {
    pub channel: Vec<u8>,
    pub content: Vec<u8>,
}

/// The views of the buffered messages.
pub open spec fn pending_views(p: Seq<PendingMessage>) -> Seq<(Seq<u8>, Seq<u8>)> {
    p.map_values(|m: PendingMessage| (m.channel@, m.content@))
}

/// The event loop's whole state.
pub struct Supervisor {
    pub session: SessionState,
    pub quiescent: u64,
    pub phase: Phase,
    pub pending: Vec<PendingMessage>,
}

/// The actions dispatching one message yields: what its command asks the
/// shell to do first.
pub open spec fn dispatch_actions(channel: Seq<u8>, content: Seq<u8>) -> Seq<ActionModel> {
    match selection(content) {
        Selected::SelNone => Seq::empty(),
        Selected::SelHelp => seq![ActionModel::PostText { channel, content: help_text() }],
        Selected::SelEval => {
            let parts = eval_parts(after_eval(content));
            let url = eval_url_spec(parts.0, parts.1);
            seq![
                ActionModel::PostText { channel, content: markdown_link_spec(url) },
                ActionModel::FetchImage { url },
            ]
        },
        Selected::SelCompile => {
            match compile_parts(after_comp(content)) {
                None => seq![ActionModel::PostText { channel, content: err_missing_block() }],
                Some(q) => seq![
                    ActionModel::CallSandbox { body: sandbox_body_spec(q.0, q.1, q.2, q.3) },
                ],
            }
        },
        Selected::SelGraph => {
            let arg = after_graph(content);
            seq![
                ActionModel::RenderChart {
                    title: title_of(arg),
                    points: points_of(arg),
                    x_end: axis_end(max_x(points_of(arg))),
                    y_end: axis_end(max_y(points_of(arg))),
                },
            ]
        },
    }
}

/// The phase dispatching one message leaves behind: which answer, if any,
/// its command now waits for.
pub open spec fn dispatch_phase(channel: Seq<u8>, content: Seq<u8>) -> PhaseModel {
    match selection(content) {
        Selected::SelNone => PhaseModel::PIdle,
        Selected::SelHelp => PhaseModel::PIdle,
        Selected::SelEval => PhaseModel::PImage { channel },
        Selected::SelCompile => match compile_parts(after_comp(content)) {
            None => PhaseModel::PIdle,
            Some(q) => PhaseModel::PSandbox { channel },
        },
        Selected::SelGraph => PhaseModel::PRender { channel },
    }
}

/// The eval argument of a message.
pub open spec fn after_eval(content: Seq<u8>) -> Seq<u8> {
    crate::bytes::after_first(content, bare_eval())
}

/// The compile argument of a message.
pub open spec fn after_comp(content: Seq<u8>) -> Seq<u8> {
    crate::bytes::after_first(content, bare_comp())
}

/// The graph argument of a message.
pub open spec fn after_graph(content: Seq<u8>) -> Seq<u8> {
    crate::bytes::after_first(content, bare_graph())
}

/// Dispatches one message: routes its content and plans its command's first
/// actions and waiting phase.
fn dispatch(channel: Vec<u8>, content: Vec<u8>) -> (r: (Vec<Action>, Phase))
    ensures
        models(r.0@) == dispatch_actions(channel@, content@),
        r.1@ == dispatch_phase(channel@, content@),
{
    let cmd = route(&content);
    match cmd {
        Command::NoCommand => {
            let acts: Vec<Action> = Vec::new();
            proof {
                assert(models(acts@) =~= dispatch_actions(channel@, content@));
            }
            (acts, Phase::Idle)
        },
        Command::Help => {
            let mut acts: Vec<Action> = Vec::new();
            acts.push(Action::PostText { channel, content: help_text_vec() });
            proof {
                assert(models(acts@) =~= dispatch_actions(channel@, content@));
            }
            (acts, Phase::Idle)
        },
        Command::Eval { color, expression } => {
            let url = eval_url(&color, &expression);
            let link = markdown_link(&url);
            let chan2 = copy_bytes(&channel);
            let mut acts: Vec<Action> = Vec::new();
            acts.push(Action::PostText { channel, content: link });
            acts.push(Action::FetchImage { url });
            proof {
                assert(models(acts@) =~= dispatch_actions(chan2@, content@));
            }
            (acts, Phase::AwaitImage { channel: chan2 })
        },
        Command::MissingCodeBlock => {
            let mut acts: Vec<Action> = Vec::new();
            acts.push(Action::PostText { channel, content: err_missing_block_vec() });
            proof {
                assert(models(acts@) =~= dispatch_actions(channel@, content@));
            }
            (acts, Phase::Idle)
        },
        Command::Compile { request } => {
            let body = sandbox_body(&request);
            let mut acts: Vec<Action> = Vec::new();
            acts.push(Action::CallSandbox { body });
            proof {
                assert(models(acts@) =~= dispatch_actions(channel@, content@));
            }
            (acts, Phase::AwaitSandbox { channel })
        },
        Command::Graph { graph } => {
            let mut acts: Vec<Action> = Vec::new();
            acts.push(Action::RenderChart { graph });
            proof {
                assert(models(acts@) =~= dispatch_actions(channel@, content@));
            }
            (acts, Phase::AwaitRender { channel })
        },
    }
}

/// Nothing observable changed.
pub open spec fn same_state(pre: Supervisor, post: Supervisor) -> bool {
    post.session == pre.session && post.quiescent == pre.quiescent && post.phase@ == pre.phase@
        && pending_views(post.pending@) == pending_views(pre.pending@)
}

/// Session, window and buffer kept; only the phase may move.
pub open spec fn keeps_rest(pre: Supervisor, post: Supervisor) -> bool {
    post.session == pre.session && post.quiescent == pre.quiescent && pending_views(post.pending@)
        == pending_views(pre.pending@)
}

/// The reply posted for a sandbox outcome: the fenced output when the answer
/// arrived and read, the generic compile failure otherwise.
pub open spec fn sandbox_reply(body: Option<Vec<u8>>) -> Seq<u8> {
    match body {
        Option::None => err_compile(),
        Option::Some(b) => match (
            json_bool_field(b@, "success"@),
            json_str_field(b@, "stdout"@),
            json_str_field(b@, "stderr"@),
        ) {
            (Option::Some(success), Option::Some(stdout), Option::Some(stderr)) =>
                compile_reply_spec(success, stdout, stderr),
            _ => err_compile(),
        },
    }
}

/// The attachment id an upload outcome carries, if any.
pub open spec fn upload_id(body: Option<Vec<u8>>) -> Option<Seq<u8>> {
    match body {
        Option::None => Option::None,
        Option::Some(b) => json_str_field(b@, "id"@),
    }
}

/// How a step handles one raw frame. A liveness reply opens the quiescent
/// window; a message is dispatched only when the loop is idle and the window
/// shut, and is buffered otherwise; everything else changes at most the
/// session.
pub open spec fn frame_step_ok(
    pre: Supervisor,
    frame: Seq<u8>,
    post: Supervisor,
    acts: Seq<ActionModel>,
) -> bool {
    match frame_class(frame) {
        FrameClass::FMalformed => same_state(pre, post) && acts == Seq::<ActionModel>::empty(),
        FrameClass::FPong => post.session == pre.session && post.quiescent == QUIESCENT_WINDOW
            && post.phase@ == pre.phase@ && pending_views(post.pending@) == pending_views(
            pre.pending@,
        ) && acts == Seq::<ActionModel>::empty(),
        FrameClass::FAuthenticated => post.session == (if pre.session is Authenticated {
            SessionState::Active
        } else {
            pre.session
        }) && post.quiescent == pre.quiescent && post.phase@ == pre.phase@ && pending_views(
            post.pending@,
        ) == pending_views(pre.pending@) && acts == Seq::<ActionModel>::empty(),
        FrameClass::FMessage { channel, content } => if pre.quiescent == 0 && pre.phase is Idle {
            post.session == pre.session && post.quiescent == 0 && post.phase@ == dispatch_phase(
                channel,
                content,
            ) && pending_views(post.pending@) == pending_views(pre.pending@) && acts
                == dispatch_actions(channel, content)
        } else {
            post.session == pre.session && post.quiescent == pre.quiescent && post.phase@
                == pre.phase@ && pending_views(post.pending@) == pending_views(pre.pending@).push(
                (channel, content),
            ) && acts == Seq::<ActionModel>::empty()
        },
    }
}

/// The whole step relation: what one event does to the state and which
/// actions it yields, for every event.
pub open spec fn step_ok(
    pre: Supervisor,
    event: Event,
    post: Supervisor,
    acts: Seq<ActionModel>,
) -> bool {
    match event {
        Event::Start => post.session is Connecting && post.quiescent == pre.quiescent
            && post.phase@ == pre.phase@ && pending_views(post.pending@) == pending_views(
            pre.pending@,
        ) && acts == seq![ActionModel::Connect],
        Event::Opened => post.session is Authenticated && post.quiescent == pre.quiescent
            && post.phase@ == pre.phase@ && pending_views(post.pending@) == pending_views(
            pre.pending@,
        ) && acts == seq![ActionModel::Authenticate, ActionModel::Ping],
        Event::ReadFailed => post.session is Connecting && post.quiescent == 0 && post.phase@
            == PhaseModel::PIdle && pending_views(post.pending@) == Seq::<(
            Seq<u8>,
            Seq<u8>,
        )>::empty() && acts == seq![ActionModel::Connect],
        Event::Tick => post.session == pre.session && post.quiescent == (if pre.quiescent > 0 {
            (pre.quiescent - 1) as u64
        } else {
            0u64
        }) && post.phase@ == pre.phase@ && pending_views(post.pending@) == pending_views(
            pre.pending@,
        ) && acts == Seq::<ActionModel>::empty(),
        Event::Frame { frame } => frame_step_ok(pre, frame@, post, acts),
        Event::SandboxDone { body } => match pre.phase@ {
            PhaseModel::PSandbox { channel } => keeps_rest(pre, post) && post.phase@
                == PhaseModel::PIdle && acts == seq![
                ActionModel::PostText { channel, content: sandbox_reply(body) },
            ],
            _ => same_state(pre, post) && acts == Seq::<ActionModel>::empty(),
        },
        Event::ImageFetched { ok } => match pre.phase@ {
            PhaseModel::PImage { channel } => keeps_rest(pre, post) && post.phase@
                == PhaseModel::PIdle && acts == (if ok {
                seq![ActionModel::StoreImage]
            } else {
                seq![ActionModel::PostText { channel, content: err_render() }]
            }),
            _ => same_state(pre, post) && acts == Seq::<ActionModel>::empty(),
        },
        Event::Rendered { ok } => match pre.phase@ {
            PhaseModel::PRender { channel } => keeps_rest(pre, post) && (if ok {
                post.phase@ == PhaseModel::PUpload { channel } && acts == seq![
                    ActionModel::UploadChart,
                ]
            } else {
                post.phase@ == PhaseModel::PIdle && acts == seq![
                    ActionModel::PostText { channel, content: err_chart() },
                ]
            }),
            _ => same_state(pre, post) && acts == Seq::<ActionModel>::empty(),
        },
        Event::Uploaded { body } => match pre.phase@ {
            PhaseModel::PUpload { channel } => keeps_rest(pre, post) && post.phase@
                == PhaseModel::PIdle && acts == (match upload_id(body) {
                Option::Some(id) => seq![ActionModel::PostAttachment { channel, id }],
                Option::None => seq![ActionModel::PostText { channel, content: err_upload() }],
            }),
            _ => same_state(pre, post) && acts == Seq::<ActionModel>::empty(),
        },
    }
}

/// What draining does: when the loop is idle, the window shut and a message
/// buffered, the first buffered message is dispatched; otherwise nothing
/// happens.
pub open spec fn drain_ok(pre: Supervisor, post: Supervisor, acts: Seq<ActionModel>) -> bool {
    if pre.quiescent == 0 && pre.phase is Idle && pre.pending@.len() > 0 {
        let m = pre.pending@[0];
        post.session == pre.session && post.quiescent == 0 && post.phase@ == dispatch_phase(
            m.channel@,
            m.content@,
        ) && pending_views(post.pending@) == pending_views(pre.pending@).drop_first() && acts
            == dispatch_actions(m.channel@, m.content@)
    } else {
        same_state(pre, post) && acts == Seq::<ActionModel>::empty()
    }
}

fn no_actions() -> (r: Vec<Action>)
    ensures
        models(r@) == Seq::<ActionModel>::empty(),
{
    let r: Vec<Action> = Vec::new();
    proof {
        assert(models(r@) =~= Seq::<ActionModel>::empty());
    }
    r
}

impl Supervisor {
    /// A fresh, disconnected loop with nothing buffered.
    pub fn new() -> (s: Supervisor)
        ensures
            s.session is Disconnected,
            s.quiescent == 0,
            s.phase@ == PhaseModel::PIdle,
            pending_views(s.pending@) == Seq::<(Seq<u8>, Seq<u8>)>::empty(),
    {
        let s = Supervisor {
            session: SessionState::Disconnected,
            quiescent: 0,
            phase: Phase::Idle,
            pending: Vec::new(),
        };
        proof {
            assert(pending_views(s.pending@) =~= Seq::<(Seq<u8>, Seq<u8>)>::empty());
        }
        s
    }

    /// Consumes one event and yields the actions the shell must now perform,
    /// in order.
    pub fn step(&mut self, event: Event) -> (actions: Vec<Action>)
        ensures
            step_ok(*old(self), event, *final(self), models(actions@)),
    {
        match event {
            Event::Start => {
                self.session = SessionState::Connecting;
                let mut acts: Vec<Action> = Vec::new();
                acts.push(Action::Connect);
                proof {
                    assert(models(acts@) =~= seq![ActionModel::Connect]);
                }
                acts
            },
            Event::Opened => {
                self.session = SessionState::Authenticated;
                let mut acts: Vec<Action> = Vec::new();
                acts.push(Action::Authenticate);
                acts.push(Action::Ping);
                proof {
                    assert(models(acts@) =~= seq![ActionModel::Authenticate, ActionModel::Ping]);
                }
                acts
            },
            Event::ReadFailed => {
                self.session = SessionState::Connecting;
                self.quiescent = 0;
                self.phase = Phase::Idle;
                self.pending = Vec::new();
                let mut acts: Vec<Action> = Vec::new();
                acts.push(Action::Connect);
                proof {
                    assert(pending_views(self.pending@) =~= Seq::<(Seq<u8>, Seq<u8>)>::empty());
                    assert(models(acts@) =~= seq![ActionModel::Connect]);
                }
                acts
            },
            Event::Tick => {
                if self.quiescent > 0 {
                    self.quiescent = self.quiescent - 1;
                }
                no_actions()
            },
            Event::Frame { frame } => {
                let ev = classify(&frame);
                match ev {
                    IncomingEvent::Malformed => no_actions(),
                    IncomingEvent::LivenessPong => {
                        self.quiescent = QUIESCENT_WINDOW;
                        no_actions()
                    },
                    IncomingEvent::Authenticated => {
                        if self.session == SessionState::Authenticated {
                            self.session = SessionState::Active;
                        }
                        no_actions()
                    },
                    IncomingEvent::MessageCreated { id: _, channel, author: _, content } => {
                        let idle = match &self.phase {
                            Phase::Idle => true,
                            _ => false,
                        };
                        if self.quiescent == 0 && idle {
                            let r = dispatch(channel, content);
                            self.phase = r.1;
                            r.0
                        } else {
                            let ghost chv = channel@;
                            let ghost ctv = content@;
                            let ghost pv = pending_views(self.pending@);
                            self.pending.push(PendingMessage { channel, content });
                            proof {
                                assert(pending_views(self.pending@) =~= pv.push((chv, ctv)));
                            }
                            no_actions()
                        }
                    },
                }
            },
            Event::SandboxDone { body } => {
                match &self.phase {
                    Phase::AwaitSandbox { channel } => {
                        let ch = copy_bytes(channel);
                        self.phase = Phase::Idle;
                        let reply = match &body {
                            Option::None => err_compile_vec(),
                            Option::Some(b) => match parse_compile_response(b) {
                                Option::Some(resp) => compile_reply(&resp),
                                Option::None => err_compile_vec(),
                            },
                        };
                        let mut acts: Vec<Action> = Vec::new();
                        let ghost chv = ch@;
                        acts.push(Action::PostText { channel: ch, content: reply });
                        proof {
                            assert(models(acts@) =~= seq![
                                ActionModel::PostText { channel: chv, content: sandbox_reply(body) },
                            ]);
                        }
                        acts
                    },
                    _ => no_actions(),
                }
            },
            Event::ImageFetched { ok } => {
                match &self.phase {
                    Phase::AwaitImage { channel } => {
                        let ch = copy_bytes(channel);
                        self.phase = Phase::Idle;
                        if ok {
                            let mut acts: Vec<Action> = Vec::new();
                            acts.push(Action::StoreImage);
                            proof {
                                assert(models(acts@) =~= seq![ActionModel::StoreImage]);
                            }
                            acts
                        } else {
                            let mut acts: Vec<Action> = Vec::new();
                            let ghost chv = ch@;
                            acts.push(Action::PostText { channel: ch, content: err_render_vec() });
                            proof {
                                assert(models(acts@) =~= seq![
                                    ActionModel::PostText { channel: chv, content: err_render() },
                                ]);
                            }
                            acts
                        }
                    },
                    _ => no_actions(),
                }
            },
            Event::Rendered { ok } => {
                match &self.phase {
                    Phase::AwaitRender { channel } => {
                        let ch = copy_bytes(channel);
                        if ok {
                            self.phase = Phase::AwaitUpload { channel: ch };
                            let mut acts: Vec<Action> = Vec::new();
                            acts.push(Action::UploadChart);
                            proof {
                                assert(models(acts@) =~= seq![ActionModel::UploadChart]);
                            }
                            acts
                        } else {
                            self.phase = Phase::Idle;
                            let mut acts: Vec<Action> = Vec::new();
                            let ghost chv = ch@;
                            acts.push(Action::PostText { channel: ch, content: err_chart_vec() });
                            proof {
                                assert(models(acts@) =~= seq![
                                    ActionModel::PostText { channel: chv, content: err_chart() },
                                ]);
                            }
                            acts
                        }
                    },
                    _ => no_actions(),
                }
            },
            Event::Uploaded { body } => {
                match &self.phase {
                    Phase::AwaitUpload { channel } => {
                        let ch = copy_bytes(channel);
                        self.phase = Phase::Idle;
                        let outcome = match &body {
                            Option::None => Option::None,
                            Option::Some(b) => parse_upload_response(b),
                        };
                        let mut acts: Vec<Action> = Vec::new();
                        let ghost chv = ch@;
                        match outcome {
                            Option::Some(id) => {
                                let ghost idv = id@;
                                acts.push(Action::PostAttachment { channel: ch, id });
                                proof {
                                    assert(models(acts@) =~= seq![
                                        ActionModel::PostAttachment { channel: chv, id: idv },
                                    ]);
                                }
                            },
                            Option::None => {
                                acts.push(
                                    Action::PostText { channel: ch, content: err_upload_vec() },
                                );
                                proof {
                                    assert(models(acts@) =~= seq![
                                        ActionModel::PostText {
                                            channel: chv,
                                            content: err_upload(),
                                        },
                                    ]);
                                }
                            },
                        }
                        acts
                    },
                    _ => no_actions(),
                }
            },
        }
    }

    /// Dispatches the first buffered message, when the loop is idle and the
    /// window shut; does nothing otherwise. The shell calls this until it
    /// yields no actions.
    pub fn drain_one(&mut self) -> (actions: Vec<Action>)
        ensures
            drain_ok(*old(self), *final(self), models(actions@)),
    {
        let idle = match &self.phase {
            Phase::Idle => true,
            _ => false,
        };
        if self.quiescent == 0 && idle && self.pending.len() > 0 {
            let ghost pv = pending_views(self.pending@);
            let m = self.pending.remove(0);
            proof {
                assert(pending_views(self.pending@) =~= pv.drop_first());
            }
            let r = dispatch(m.channel, m.content);
            self.phase = r.1;
            r.0
        } else {
            no_actions()
        }
    }
}

/// A supervisor never holds a window longer than [`QUIESCENT_WINDOW`].
pub open spec fn sup_wf(s: Supervisor) -> bool {
    s.quiescent <= QUIESCENT_WINDOW
}

/// Steps preserve well-formedness: the window is opened at its fixed length
/// and otherwise only counts down.
pub proof fn lemma_step_preserves_wf(
    pre: Supervisor,
    event: Event,
    post: Supervisor,
    acts: Seq<ActionModel>,
)
    requires
        step_ok(pre, event, post, acts),
        sup_wf(pre),
    ensures
        sup_wf(post),
{
}

/// The window cannot be skipped: a step leaves at most one tick less of it,
/// unless it is the reconnect, which also empties the buffer.
pub proof fn lemma_window_elapses_tick_by_tick(
    pre: Supervisor,
    event: Event,
    post: Supervisor,
    acts: Seq<ActionModel>,
)
    requires
        step_ok(pre, event, post, acts),
        sup_wf(pre),
    ensures
        post.quiescent >= pre.quiescent - 1 || pending_views(post.pending@) == Seq::<(
            Seq<u8>,
            Seq<u8>,
        )>::empty(),
{
}

/// A liveness reply opens a full quiescent window and triggers nothing.
pub proof fn lemma_pong_opens_window(
    pre: Supervisor,
    frame: Vec<u8>,
    post: Supervisor,
    acts: Seq<ActionModel>,
)
    requires
        step_ok(pre, Event::Frame { frame }, post, acts),
        frame_class(frame@) is FPong,
    ensures
        post.quiescent == QUIESCENT_WINDOW,
        acts == Seq::<ActionModel>::empty(),
{
}

/// While the quiescent window is open, an arriving message is buffered, in
/// order, and nothing is done for it.
pub proof fn lemma_quiescent_buffers(
    pre: Supervisor,
    frame: Vec<u8>,
    post: Supervisor,
    acts: Seq<ActionModel>,
)
    requires
        step_ok(pre, Event::Frame { frame }, post, acts),
        pre.quiescent > 0,
        frame_class(frame@) is FMessage,
    ensures
        acts == Seq::<ActionModel>::empty(),
        frame_class(frame@) matches FrameClass::FMessage { channel, content } ==> pending_views(
            post.pending@,
        ) == pending_views(pre.pending@).push((channel, content)),
{
}

/// While a command is in flight, an arriving message is buffered likewise:
/// at most one command runs at a time.
pub proof fn lemma_busy_buffers(
    pre: Supervisor,
    frame: Vec<u8>,
    post: Supervisor,
    acts: Seq<ActionModel>,
)
    requires
        step_ok(pre, Event::Frame { frame }, post, acts),
        !(pre.phase is Idle),
        frame_class(frame@) is FMessage,
    ensures
        acts == Seq::<ActionModel>::empty(),
        frame_class(frame@) matches FrameClass::FMessage { channel, content } ==> pending_views(
            post.pending@,
        ) == pending_views(pre.pending@).push((channel, content)),
{
}

/// While the quiescent window is open the buffer stays shut: draining does
/// nothing until the window has elapsed, tick by tick.
pub proof fn lemma_quiescent_drain_defers(pre: Supervisor, post: Supervisor, acts: Seq<ActionModel>)
    requires
        drain_ok(pre, post, acts),
        pre.quiescent > 0,
    ensures
        same_state(pre, post),
        acts == Seq::<ActionModel>::empty(),
{
}

proof fn lemma_dispatch_no_attachment(channel: Seq<u8>, content: Seq<u8>)
    ensures
        forall|i: int|
            0 <= i < dispatch_actions(channel, content).len() ==> !(dispatch_actions(
                channel,
                content,
            )[i] is PostAttachment),
{
}

/// The two-phase upload ordering: a step posts a message referencing an
/// attachment id only when that very step received the upload answer, and
/// the id is the one the answer carries. No other event, and no dispatch of
/// a command, ever references an attachment.
pub proof fn lemma_upload_precedes_post(
    pre: Supervisor,
    event: Event,
    post: Supervisor,
    acts: Seq<ActionModel>,
    i: int,
)
    requires
        step_ok(pre, event, post, acts),
        0 <= i < acts.len(),
        acts[i] is PostAttachment,
    ensures
        event matches Event::Uploaded { body } && upload_id(body) == Option::Some(
            acts[i]->PostAttachment_id,
        ),
        pre.phase@ matches PhaseModel::PUpload { channel } && channel
            == acts[i]->PostAttachment_channel,
{
    match event {
        Event::Frame { frame } => {
            match frame_class(frame@) {
                FrameClass::FMessage { channel, content } => {
                    lemma_dispatch_no_attachment(channel, content);
                },
                _ => {},
            }
        },
        _ => {},
    }
}

/// Draining a buffered message never references an attachment either: only
/// an upload answer does.
pub proof fn lemma_drain_posts_no_attachment(
    pre: Supervisor,
    post: Supervisor,
    acts: Seq<ActionModel>,
    i: int,
)
    requires
        drain_ok(pre, post, acts),
        0 <= i < acts.len(),
    ensures
        !(acts[i] is PostAttachment),
{
    if pre.quiescent == 0 && pre.phase is Idle && pre.pending@.len() > 0 {
        let m = pre.pending@[0];
        lemma_dispatch_no_attachment(m.channel@, m.content@);
    }
}

} // verus!
