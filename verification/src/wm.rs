//! The window-manager session: its error taxonomy, the decoded
//! display-server events, and the state machine that classifies each
//! event and updates the client registry and the tag sets.
//!
//! All display-server I/O happens outside the library. The embedder
//! connects, enumerates screens, sends the requests this module decides
//! on, and hands every reply and every decoded event back in as plain
//! values.

use vstd::prelude::*;

use crate::client::Client;
use crate::client::ClientList;
use crate::client::contains_window;
use crate::client::evict_rel;
use crate::tagset::Layout;
use crate::tagset::TagSet;
use crate::tagset::popped_focus;

verus! {

/// A fatal condition of the session. Every variant is unrecoverable at
/// the point of detection: the boundary reports the message and ends the
/// process. Only per-client failures (an unreadable type property at
/// adoption) stay local and are not represented here.
#[derive(Debug)]
pub enum WmError {
    /// The protocol connection could not be established; carries a
    /// description of the underlying cause.
    CouldNotConnect(String),
    /// The requested screen index is out of range of the advertised
    /// screens.
    CouldNotAcquireScreen,
    /// A name of the atom batch got no reply; carries that name.
    CouldNotRegisterAtom(String),
    /// The server rejected the substructure-redirect registration:
    /// another window manager holds the privilege.
    OtherWmRunning,
    /// The connection reported an error between events.
    ConnectionInterrupted,
    /// The event stream ended without a connection error.
    IOError,
}

impl WmError {
    /// The human-readable diagnostic the boundary prints before it
    /// terminates the process.
    pub fn message(&self) -> (r: String)
        ensures
            match self {
                WmError::CouldNotConnect(cause) => r@ == "Could not connect: "@ + cause@,
                WmError::CouldNotAcquireScreen => r@ == "Could not acquire screen."@,
                WmError::CouldNotRegisterAtom(name) => r@ == "Could not register atom. "@
                    + name@,
                WmError::OtherWmRunning => r@ == "Another WM is running."@,
                WmError::ConnectionInterrupted => r@ == "Connection interrupted."@,
                WmError::IOError => r@ == "IO error occurred."@,
            },
    {
        match self {
            WmError::CouldNotConnect(cause) => {
                let mut s = "Could not connect: ".to_owned();
                s.append(cause.as_str());
                s
            },
            WmError::CouldNotAcquireScreen => "Could not acquire screen.".to_owned(),
            WmError::CouldNotRegisterAtom(name) => {
                let mut s = "Could not register atom. ".to_owned();
                s.append(name.as_str());
                s
            },
            WmError::OtherWmRunning => "Another WM is running.".to_owned(),
            WmError::ConnectionInterrupted => "Connection interrupted.".to_owned(),
            WmError::IOError => "IO error occurred.".to_owned(),
        }
    }
}

/// Event-mask bits of the core protocol, as the server defines them.
pub const EVENT_MASK_KEY_PRESS: u32 = 0x1;
pub const EVENT_MASK_BUTTON_PRESS: u32 = 0x4;
pub const EVENT_MASK_SUBSTRUCTURE_NOTIFY: u32 = 0x80000;
pub const EVENT_MASK_SUBSTRUCTURE_REDIRECT: u32 = 0x100000;
pub const EVENT_MASK_PROPERTY_CHANGE: u32 = 0x400000;

/// The events a window manager subscribes to on the root window:
/// substructure redirect (placement authority), substructure notify,
/// property changes, key presses and button presses.
pub open spec fn spec_register_event_mask() -> u32 {
    EVENT_MASK_SUBSTRUCTURE_REDIRECT | EVENT_MASK_SUBSTRUCTURE_NOTIFY
        | EVENT_MASK_PROPERTY_CHANGE | EVENT_MASK_KEY_PRESS | EVENT_MASK_BUTTON_PRESS
}

/// The event mask the session asks the server to set on the root window.
pub fn register_event_mask() -> (m: u32)
    ensures
        m == spec_register_event_mask(),
{
    EVENT_MASK_SUBSTRUCTURE_REDIRECT | EVENT_MASK_SUBSTRUCTURE_NOTIFY
        | EVENT_MASK_PROPERTY_CHANGE | EVENT_MASK_KEY_PRESS | EVENT_MASK_BUTTON_PRESS
}

/// Type codes of the server events the manager recognizes.
pub const KEY_STATE_NOTIFY: u8 = 2;
pub const BUTTON_PRESS: u8 = 4;
pub const CREATE_NOTIFY: u8 = 16;
pub const DESTROY_NOTIFY: u8 = 17;
pub const MAP_REQUEST: u8 = 20;
pub const CONFIGURE_REQUEST: u8 = 23;
pub const PROPERTY_NOTIFY: u8 = 28;

/// The closed set of event categories the dispatch loop distinguishes.
/// Unrecognized codes are an explicit, audited case, never an error.
#[derive(Debug, PartialEq, Eq, Clone, Copy, Structural)]
pub enum EventKind {
    KeyStateChange,
    ButtonPress,
    PropertyChange,
    WindowCreated,
    WindowDestroyed,
    ConfigureRequest,
    MapRequest,
    Unrecognized,
}

/// Which category a raw event-type code falls in.
pub open spec fn spec_classify(code: u8) -> EventKind {
    if code == KEY_STATE_NOTIFY {
        EventKind::KeyStateChange
    } else if code == BUTTON_PRESS {
        EventKind::ButtonPress
    } else if code == PROPERTY_NOTIFY {
        EventKind::PropertyChange
    } else if code == CREATE_NOTIFY {
        EventKind::WindowCreated
    } else if code == DESTROY_NOTIFY {
        EventKind::WindowDestroyed
    } else if code == CONFIGURE_REQUEST {
        EventKind::ConfigureRequest
    } else if code == MAP_REQUEST {
        EventKind::MapRequest
    } else {
        EventKind::Unrecognized
    }
}

/// Classify a raw event-type code. The embedder uses the category to
/// decode the matching payload before handing the event in.
pub fn classify(code: u8) -> (k: EventKind)
    ensures
        k == spec_classify(code),
{
    if code == KEY_STATE_NOTIFY {
        EventKind::KeyStateChange
    } else if code == BUTTON_PRESS {
        EventKind::ButtonPress
    } else if code == PROPERTY_NOTIFY {
        EventKind::PropertyChange
    } else if code == CREATE_NOTIFY {
        EventKind::WindowCreated
    } else if code == DESTROY_NOTIFY {
        EventKind::WindowDestroyed
    } else if code == CONFIGURE_REQUEST {
        EventKind::ConfigureRequest
    } else if code == MAP_REQUEST {
        EventKind::MapRequest
    } else {
        EventKind::Unrecognized
    }
}

/// A decoded server event, as the embedder hands it in.
#[derive(Debug, PartialEq, Eq, Clone, Copy, Structural)]
pub enum Event {
    KeyStateChange { xkb_type: u8, keycode: u8 },
    ButtonPress { button: u8, root_x: i16, root_y: i16 },
    PropertyChange { window: u32, atom: u32 },
    WindowCreated { parent: u32, window: u32, x: i16, y: i16 },
    WindowDestroyed { window: u32 },
    ConfigureRequest { window: u32 },
    MapRequest { window: u32 },
    Unrecognized { code: u8 },
}

/// What the embedder is told to do after an event was handled. Only the
/// two arbitration reactions lead to further protocol requests; the
/// report reactions surface the event for external handlers.
#[derive(Debug, PartialEq, Eq, Clone, Copy, Structural)]
pub enum Reaction {
    ReportKey { xkb_type: u8, keycode: u8 },
    ReportButton { button: u8, root_x: i16, root_y: i16 },
    ReportProperty { window: u32, atom: u32 },
    ReportCreation { parent: u32, window: u32, x: i16, y: i16 },
    ReportDestruction { window: u32 },
    /// A window asked to change its own geometry: the layout strategy
    /// arbitrates and the manager answers with placement requests.
    Arrange { window: u32 },
    /// A window asked to become visible: adoption candidate, then grant
    /// of visibility coordinated with the layout strategy.
    MapAndArrange { window: u32 },
    ReportUnrecognized { code: u8 },
}

/// True for the reactions that make the embedder issue further protocol
/// requests.
pub open spec fn issues_requests(r: Reaction) -> bool {
    r is Arrange || r is MapAndArrange
}

/// The reaction owed for each event: a total function, so no event is
/// ever dropped without at least a no-op classification.
pub open spec fn reaction_for(ev: Event) -> Reaction {
    match ev {
        Event::KeyStateChange { xkb_type, keycode } => Reaction::ReportKey { xkb_type, keycode },
        Event::ButtonPress { button, root_x, root_y } => Reaction::ReportButton {
            button,
            root_x,
            root_y,
        },
        Event::PropertyChange { window, atom } => Reaction::ReportProperty { window, atom },
        Event::WindowCreated { parent, window, x, y } => Reaction::ReportCreation {
            parent,
            window,
            x,
            y,
        },
        Event::WindowDestroyed { window } => Reaction::ReportDestruction { window },
        Event::ConfigureRequest { window } => Reaction::Arrange { window },
        Event::MapRequest { window } => Reaction::MapAndArrange { window },
        Event::Unrecognized { code } => Reaction::ReportUnrecognized { code },
    }
}

/// Where the session stands: not yet holding the substructure-redirect
/// privilege, running the dispatch loop, or halted by a fatal condition.
#[derive(Debug, PartialEq, Eq, Clone, Copy, Structural)]
pub enum Phase {
    Unregistered,
    Running,
    Halted,
}

/// What one dispatch-loop iteration decided: keep looping and perform
/// the reaction, or stop with a fatal error.
#[derive(Debug)]
pub enum StepOutcome {
    Continue(Reaction),
    Stop(WmError),
}

/// The phase after one dispatch-loop iteration: a running session halts
/// on a broken connection or an ended stream and keeps running
/// otherwise; a session not running never moves.
pub open spec fn phase_after_step(pre: Phase, connection_ok: bool, got_event: bool) -> Phase {
    if pre is Running {
        if !connection_ok || !got_event {
            Phase::Halted
        } else {
            Phase::Running
        }
    } else {
        pre
    }
}

/// The phase after a whole sequence of loop inputs, each a pair of
/// connection health and event availability.
pub open spec fn phase_after_steps(pre: Phase, inputs: Seq<(bool, bool)>) -> Phase
    decreases inputs.len(),
{
    if inputs.len() == 0 {
        pre
    } else {
        phase_after_steps(phase_after_step(pre, inputs[0].0, inputs[0].1), inputs.drop_first())
    }
}

/// A halted session stays halted under every further sequence of loop
/// inputs. Together with the contracts of `register` and `step` this
/// pins the fate of a rejected registration: the session is halted at
/// once, and since only a running session dispatches events — and only
/// dispatched events yield reactions, the sole source of further
/// protocol requests — none is ever issued afterward.
pub proof fn lemma_halted_stays_halted(inputs: Seq<(bool, bool)>)
    ensures
        phase_after_steps(Phase::Halted, inputs) == Phase::Halted,
    decreases inputs.len(),
{
    if inputs.len() > 0 {
        lemma_halted_stays_halted(inputs.drop_first());
    }
}

/// The window manager: the root window it controls, the phase of its
/// session, the registry of managed clients and the tag sets (virtual
/// desktops) they are grouped in.
pub struct Wm<L: Layout> {
    pub root: u32,
    pub phase: Phase,
    pub clients: ClientList,
    pub tagsets: Vec<TagSet<L>>,
}

impl<L: Layout> Wm<L> {
    /// The registry holds no duplicate windows and every focus history
    /// is bounded.
    pub open spec fn wf(self) -> bool {
        &&& self.clients.wf()
        &&& forall|k: int| 0 <= k < self.tagsets@.len() ==> (#[trigger] self.tagsets@[k]).wf()
    }

    /// How every tag set changes when a window is gone: its identifier
    /// is popped from each focus history; tags and layout stay.
    pub open spec fn tagsets_popped(
        pre: Seq<TagSet<L>>,
        post: Seq<TagSet<L>>,
        window: u32,
    ) -> bool {
        &&& post.len() == pre.len()
        &&& forall|k: int|
            #![trigger post[k]]
            0 <= k < pre.len() ==> post[k].focused@ == popped_focus(pre[k].focused@, window)
                && post[k].tags == pre[k].tags && post[k].layout == pre[k].layout
    }

    /// Bind the manager to one screen of the connected display: the
    /// embedder passes the root windows of all advertised screens, and
    /// an index out of their range is a fatal error.
    pub fn new(roots: &Vec<u32>, screen_num: i32) -> (r: Result<Wm<L>, WmError>)
        ensures
            0 <= screen_num && (screen_num as int) < roots@.len() ==> (r matches Ok(w)
                && w.root == roots@[screen_num as int]
                && w.phase == Phase::Unregistered
                && w.clients@ == Seq::<Client>::empty()
                && w.tagsets@ == Seq::<TagSet<L>>::empty()
                && w.wf()),
            !(0 <= screen_num && (screen_num as int) < roots@.len())
                ==> (r matches Err(e) && e is CouldNotAcquireScreen),
    {
        if 0 <= screen_num && (screen_num as usize) < roots.len() {
            Ok(
                Wm {
                    root: roots[screen_num as usize],
                    phase: Phase::Unregistered,
                    clients: ClientList::new(),
                    tagsets: Vec::new(),
                },
            )
        } else {
            Err(WmError::CouldNotAcquireScreen)
        }
    }

    /// Attach one more tag set (virtual desktop) to the manager.
    pub fn add_tagset(&mut self, ts: TagSet<L>)
        requires
            old(self).wf(),
            ts.wf(),
        ensures
            final(self).wf(),
            final(self).tagsets@ == old(self).tagsets@.push(ts),
            final(self).root == old(self).root,
            final(self).phase == old(self).phase,
            final(self).clients == old(self).clients,
    {
        self.tagsets.push(ts);
    }

    /// Collect the replies of one batched atom registration. The
    /// embedder issues one request per name, pipelined, and hands the
    /// replies back in request order; the whole batch succeeds in that
    /// order, or the first name without a reply fails it and no partial
    /// sequence is returned.
    pub fn get_atoms(&self, names: &Vec<String>, replies: &Vec<Option<u32>>) -> (r: Result<
        Vec<u32>,
        WmError,
    >)
        requires
            names@.len() == replies@.len(),
        ensures
            match r {
                Ok(atoms) => atoms@.len() == names@.len() && (forall|i: int|
                    0 <= i < replies@.len() ==> replies@[i] == Some(atoms@[i])),
                Err(e) => exists|i: int|
                    #![trigger replies@[i]]
                    0 <= i < replies@.len() && replies@[i] is None && (forall|j: int|
                        0 <= j < i ==> replies@[j] is Some) && (e matches
                    WmError::CouldNotRegisterAtom(n) && n@ == names@[i]@),
            },
    {
        let mut atoms: Vec<u32> = Vec::new();
        let mut i: usize = 0;
        while i < replies.len()
            invariant
                0 <= i <= replies@.len(),
                names@.len() == replies@.len(),
                atoms@.len() == i,
                forall|j: int| 0 <= j < i ==> replies@[j] == Some(atoms@[j]),
            decreases replies@.len() - i,
        {
            match replies[i] {
                Some(atom) => atoms.push(atom),
                None => {
                    return Err(WmError::CouldNotRegisterAtom(names[i].clone()));
                },
            }
            i += 1;
        }
        Ok(atoms)
    }

    /// Record the server's answer to the event-mask registration. A
    /// rejection means another process already holds the
    /// substructure-redirect privilege: the session halts and must issue
    /// no further requests, since placement authority was not acquired.
    pub fn register(&mut self, accepted: bool) -> (r: Result<(), WmError>)
        requires
            old(self).phase == Phase::Unregistered,
        ensures
            final(self).root == old(self).root,
            final(self).clients == old(self).clients,
            final(self).tagsets == old(self).tagsets,
            accepted ==> final(self).phase == Phase::Running && r is Ok,
            !accepted ==> final(self).phase == Phase::Halted && (r matches Err(e)
                && e is OtherWmRunning),
    {
        if accepted {
            self.phase = Phase::Running;
            Ok(())
        } else {
            self.phase = Phase::Halted;
            Err(WmError::OtherWmRunning)
        }
    }

    /// Route one decoded event. A destroy notification evicts the
    /// client and pops the window from every focus history — for a
    /// window that was never adopted this is a no-op, since the
    /// notification can race with other removal paths. Every other
    /// event leaves the model untouched and is surfaced through the
    /// reaction.
    pub fn handle(&mut self, event: &Event) -> (r: Reaction)
        requires
            old(self).phase == Phase::Running,
            old(self).wf(),
        ensures
            final(self).wf(),
            final(self).phase == Phase::Running,
            final(self).root == old(self).root,
            r == reaction_for(*event),
            match *event {
                Event::WindowDestroyed { window } => {
                    &&& evict_rel(old(self).clients@, final(self).clients@, window)
                    &&& !contains_window(final(self).clients@, window)
                    &&& Self::tagsets_popped(old(self).tagsets@, final(self).tagsets@, window)
                },
                _ => *final(self) == *old(self),
            },
    {
        match *event {
            Event::KeyStateChange { xkb_type, keycode } => Reaction::ReportKey {
                xkb_type,
                keycode,
            },
            Event::ButtonPress { button, root_x, root_y } => Reaction::ReportButton {
                button,
                root_x,
                root_y,
            },
            Event::PropertyChange { window, atom } => Reaction::ReportProperty { window, atom },
            Event::WindowCreated { parent, window, x, y } => Reaction::ReportCreation {
                parent,
                window,
                x,
                y,
            },
            Event::WindowDestroyed { window } => {
                self.clients.remove(window);
                let ghost mid_clients = self.clients;
                let ghost pre_ts = self.tagsets@;
                let mut k: usize = 0;
                while k < self.tagsets.len()
                    invariant
                        0 <= k <= pre_ts.len(),
                        self.clients == mid_clients,
                        self.phase == Phase::Running,
                        self.root == old(self).root,
                        self.tagsets@.len() == pre_ts.len(),
                        forall|j: int|
                            #![trigger self.tagsets@[j]]
                            0 <= j < k ==> self.tagsets@[j].focused@ == popped_focus(
                                pre_ts[j].focused@,
                                window,
                            ) && self.tagsets@[j].tags == pre_ts[j].tags
                                && self.tagsets@[j].layout == pre_ts[j].layout
                                && self.tagsets@[j].wf(),
                        forall|j: int|
                            #![trigger self.tagsets@[j]]
                            k <= j < pre_ts.len() ==> self.tagsets@[j] == pre_ts[j],
                        forall|j: int| 0 <= j < pre_ts.len() ==> (#[trigger] pre_ts[j]).wf(),
                    decreases pre_ts.len() - k,
                {
                    self.tagsets[k].pop_focus(window);
                    k += 1;
                }
                Reaction::ReportDestruction { window }
            },
            Event::ConfigureRequest { window } => Reaction::Arrange { window },
            Event::MapRequest { window } => Reaction::MapAndArrange { window },
            Event::Unrecognized { code } => Reaction::ReportUnrecognized { code },
        }
    }

    /// One iteration of the dispatch loop, after the embedder flushed
    /// pending requests: an unhealthy connection or an ended event
    /// stream halts the session; otherwise the event is routed and the
    /// loop goes on. Only these failure transitions ever end the loop.
    pub fn step(&mut self, connection_ok: bool, event: Option<Event>) -> (r: StepOutcome)
        requires
            old(self).phase == Phase::Running,
            old(self).wf(),
        ensures
            final(self).wf(),
            final(self).root == old(self).root,
            final(self).phase == phase_after_step(old(self).phase, connection_ok, event is Some),
            !connection_ok ==> (r matches StepOutcome::Stop(e) && e is ConnectionInterrupted)
                && final(self).phase == Phase::Halted
                && final(self).clients == old(self).clients
                && final(self).tagsets == old(self).tagsets,
            connection_ok ==> match event {
                None => (r matches StepOutcome::Stop(e) && e is IOError)
                    && final(self).phase == Phase::Halted
                    && final(self).clients == old(self).clients
                    && final(self).tagsets == old(self).tagsets,
                Some(ev) => (r matches StepOutcome::Continue(rc) && rc == reaction_for(ev))
                    && final(self).phase == Phase::Running && match ev {
                    Event::WindowDestroyed { window } => {
                        &&& evict_rel(old(self).clients@, final(self).clients@, window)
                        &&& !contains_window(final(self).clients@, window)
                        &&& Self::tagsets_popped(old(self).tagsets@, final(self).tagsets@, window)
                    },
                    _ => final(self).clients == old(self).clients && final(self).tagsets == old(
                        self,
                    ).tagsets,
                },
            },
    {
        if !connection_ok {
            self.phase = Phase::Halted;
            return StepOutcome::Stop(WmError::ConnectionInterrupted);
        }
        match event {
            Some(ev) => StepOutcome::Continue(self.handle(&ev)),
            None => {
                self.phase = Phase::Halted;
                StepOutcome::Stop(WmError::IOError)
            },
        }
    }
}

} // verus!
