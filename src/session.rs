use vstd::prelude::*;
use crate::frame::{
    copy_range, decode_frames, encode_request, parse_frames, request_bytes, Command, Event, EventKind, Frame,
    Inbound, Reply,
};
use crate::goal::{Goal, GoalController, GoalType};
use crate::wire::DecodeError;
use vstd::string::StringSliceAdditionalSpecFns;

verus! {

/// The event handler tokens registered on one device, one slot per kind.
#[derive(Debug, Clone, Copy, PartialEq, Eq, Structural)]
pub struct Handlers {
    pub accelerometer: Option<u64>,
    pub button: Option<u64>,
    pub joint: Option<u64>,
    pub connect: Option<u64>,
}

/// The shape of reply a pending command waits for.
#[derive(Debug, Clone, Copy, PartialEq, Eq, Structural)]
pub enum ReplyKind {
    Ack,
    FormFactor,
    Accelerometer,
    Encoders,
}

/// A command that was sent and whose reply has not yet been routed.
#[derive(Debug, Clone, Copy, PartialEq, Eq, Structural)]
pub struct Pending {
    pub request_id: u32,
    pub callback: u64,
    pub expect: ReplyKind,
}

/// A callback that the caller must now invoke.
#[derive(Debug, Clone, Copy, PartialEq, Eq, Structural)]
pub enum Dispatch {
    /// The completion callback of the command sent as `request_id`, with its reply.
    Completion { request_id: u32, callback: u64, reply: Reply },
    /// An event handler, with the event.
    Notify { handler: u64, event: Event },
}

/// Why a command was not issued. Nothing is sent and nothing is recorded.
#[derive(Debug, Clone, Copy, PartialEq, Eq, Structural)]
pub enum EncodeError {
    /// The device identifier is longer than a frame's 255-byte field.
    DeviceIdTooLong,
    /// Every request id of this session has been handed out.
    RequestIdsExhausted,
}

/// A request frame to hand to the write sink, and the id its reply will carry.
pub struct Outgoing {
    pub request_id: u32,
    pub bytes: Vec<u8>,
}

/// A handle on one device of a session: its identifier.
pub struct Robot {
    id: Vec<u8>,
}

impl View for Robot {
    type V = Seq<u8>;

    closed spec fn view(&self) -> Seq<u8> {
        self.id@
    }
}

/// The abstract state of a session.
pub struct SessionView {
    /// Identifiers of the known devices, in order of first request.
    pub ids: Seq<Seq<u8>>,
    /// `handlers[i]` belongs to the device `ids[i]`.
    pub handlers: Seq<Handlers>,
    /// Commands in flight, in order of issue.
    pub pending: Seq<Pending>,
    /// The id the next command will carry.
    pub next_request: u32,
}

/// The session proxy: device registry, event handlers and pending commands.
pub struct DaemonProxy {
    ids: Vec<Vec<u8>>,
    handlers: Vec<Handlers>,
    pending: Vec<Pending>,
    next_request: u32,
}

pub open spec fn no_handlers() -> Handlers {
    Handlers { accelerometer: None, button: None, joint: None, connect: None }
}

pub open spec fn handler_for(h: Handlers, k: EventKind) -> Option<u64> {
    match k {
        EventKind::Accelerometer => h.accelerometer,
        EventKind::Button => h.button,
        EventKind::Joint => h.joint,
        EventKind::Connect => h.connect,
    }
}

pub open spec fn with_handler(h: Handlers, k: EventKind, x: Option<u64>) -> Handlers {
    match k {
        EventKind::Accelerometer => Handlers { accelerometer: x, ..h },
        EventKind::Button => Handlers { button: x, ..h },
        EventKind::Joint => Handlers { joint: x, ..h },
        EventKind::Connect => Handlers { connect: x, ..h },
    }
}

pub open spec fn kind_of(e: Event) -> EventKind {
    match e {
        Event::Accelerometer { .. } => EventKind::Accelerometer,
        Event::Button { .. } => EventKind::Button,
        Event::Joint { .. } => EventKind::Joint,
        Event::Connect { .. } => EventKind::Connect,
    }
}

pub open spec fn reply_fits(k: ReplyKind, r: Reply) -> bool {
    match (k, r) {
        (ReplyKind::Ack, Reply::Ack) => true,
        (ReplyKind::FormFactor, Reply::FormFactor { .. }) => true,
        (ReplyKind::Accelerometer, Reply::Accelerometer { .. }) => true,
        (ReplyKind::Encoders, Reply::Encoders { .. }) => true,
        _ => false,
    }
}

impl SessionView {
    /// Pending ids increase in order of issue and lie below `next_request`;
    /// device identifiers are distinct and each has its handlers.
    pub open spec fn well_formed(self) -> bool {
        &&& self.ids.len() == self.handlers.len()
        &&& forall|i: int, j: int|
            0 <= i < j < self.ids.len() ==> self.ids[i] != self.ids[j]
        &&& forall|i: int, j: int|
            0 <= i < j < self.pending.len() ==> self.pending[i].request_id
                < self.pending[j].request_id
        &&& forall|i: int|
            0 <= i < self.pending.len() ==> self.pending[i].request_id < self.next_request
    }

    pub open spec fn has_robot(self, id: Seq<u8>) -> bool {
        exists|i: int| 0 <= i < self.ids.len() && self.ids[i] == id
    }

    pub open spec fn robot_index(self, id: Seq<u8>) -> int {
        choose|i: int| 0 <= i < self.ids.len() && self.ids[i] == id
    }

    /// The handlers of a known device.
    pub open spec fn handlers_of(self, id: Seq<u8>) -> Handlers {
        self.handlers[self.robot_index(id)]
    }

    pub open spec fn is_pending(self, request_id: u32) -> bool {
        exists|i: int| 0 <= i < self.pending.len() && self.pending[i].request_id == request_id
    }

    pub open spec fn pending_index(self, request_id: u32) -> int {
        choose|i: int| 0 <= i < self.pending.len() && self.pending[i].request_id == request_id
    }

    /// The session once device `id` is known: unchanged if it already was,
    /// else with `id` appended and no handlers.
    pub open spec fn with_robot(self, id: Seq<u8>) -> SessionView {
        if self.has_robot(id) {
            self
        } else {
            SessionView {
                ids: self.ids.push(id),
                handlers: self.handlers.push(no_handlers()),
                ..self
            }
        }
    }

    /// Routing one inbound frame: the state after it, and the callbacks it fires.
    pub open spec fn step(self, f: Frame) -> (SessionView, Seq<Dispatch>) {
        match f {
            Frame::Reply { request_id, reply } => {
                if self.is_pending(request_id) && reply_fits(
                    self.pending[self.pending_index(request_id)].expect,
                    reply,
                ) {
                    let i = self.pending_index(request_id);
                    (
                        SessionView { pending: self.pending.remove(i), ..self },
                        seq![Dispatch::Completion { request_id, callback: self.pending[i].callback, reply }],
                    )
                } else {
                    (self, seq![])
                }
            },
            Frame::Event { device, event } => {
                if self.has_robot(device) {
                    match handler_for(self.handlers_of(device), kind_of(event)) {
                        Some(h) => (self, seq![Dispatch::Notify { handler: h, event }]),
                        None => (self, seq![]),
                    }
                } else {
                    (self, seq![])
                }
            },
        }
    }

    /// Routing a sequence of frames in order.
    pub open spec fn run(self, fs: Seq<Frame>) -> (SessionView, Seq<Dispatch>)
        decreases fs.len(),
    {
        if fs.len() == 0 {
            (self, seq![])
        } else {
            let (s1, d1) = self.run(fs.drop_last());
            let (s2, d2) = s1.step(fs.last());
            (s2, d1 + d2)
        }
    }

    /// What issuing `c` to `device` does: the error, if one is due, leaves the
    /// session as it was; otherwise the frame carries the next request id and
    /// one pending entry is recorded for it.
    pub open spec fn issues(
        self,
        post: SessionView,
        device: Seq<u8>,
        c: Command,
        callback: u64,
        expect: ReplyKind,
        r: Result<Outgoing, EncodeError>,
    ) -> bool {
        if device.len() >= 256 {
            r == Err::<Outgoing, EncodeError>(EncodeError::DeviceIdTooLong) && post == self
        } else if self.next_request == u32::MAX {
            r == Err::<Outgoing, EncodeError>(EncodeError::RequestIdsExhausted) && post == self
        } else {
            &&& r is Ok
            &&& r->Ok_0.request_id == self.next_request
            &&& r->Ok_0.bytes@ == request_bytes(self.next_request, device, c)
            &&& post.pending == self.pending.push(
                Pending { request_id: self.next_request, callback, expect },
            )
            &&& post.next_request == self.next_request + 1
            &&& post.ids == self.ids
            &&& post.handlers == self.handlers
        }
    }
}

impl View for DaemonProxy {
    type V = SessionView;

    closed spec fn view(&self) -> SessionView {
        SessionView {
            ids: self.ids@.map_values(|v: Vec<u8>| v@),
            handlers: self.handlers@,
            pending: self.pending@,
            next_request: self.next_request,
        }
    }
}

/// Joint `j`'s goal in a move: none unless bit `j` of `mask` is set; otherwise
/// a constant-velocity goal to `angle`, relative when bit `j` of `relative_mask` is set.
pub open spec fn joint_goal(mask: u8, relative_mask: u8, j: u8, angle: u32) -> Option<Goal> {
    if mask & (1u8 << j) != 0 {
        Some(
            Goal {
                field_type: if relative_mask & (1u8 << j) != 0 {
                    GoalType::Relative
                } else {
                    GoalType::Absolute
                },
                goal: angle,
                controller: GoalController::ConstVel,
            },
        )
    } else {
        None
    }
}

fn make_joint_goal(mask: u8, relative_mask: u8, j: u8, angle: u32) -> (r: Option<Goal>)
    requires
        j < 8,
    ensures
        r == joint_goal(mask, relative_mask, j, angle),
{
    if mask & (1u8 << j) != 0 {
        let t = if relative_mask & (1u8 << j) != 0 {
            GoalType::Relative
        } else {
            GoalType::Absolute
        };
        Some(Goal::new(t, angle, GoalController::ConstVel))
    } else {
        None
    }
}

fn same_bytes(a: &[u8], b: &[u8]) -> (r: bool)
    ensures
        r == (a@ == b@),
{
    if a.len() != b.len() {
        return false;
    }
    let mut i: usize = 0;
    while i < a.len()
        invariant
            a@.len() == b@.len(),
            i <= a@.len(),
            forall|k: int| 0 <= k < i ==> a@[k] == b@[k],
        decreases a@.len() - i,
    {
        if a[i] != b[i] {
            return false;
        }
        i = i + 1;
    }
    assert(a@ =~= b@);
    true
}

impl DaemonProxy {
    /// The session's invariant; every operation keeps it.
    pub open spec fn wf(&self) -> bool {
        self@.well_formed()
    }

    /// A session with no devices and nothing in flight.
    pub fn new() -> (r: DaemonProxy)
        ensures
            r.wf(),
            r@.ids.len() == 0,
            r@.pending.len() == 0,
            r@.next_request == 0,
    {
        DaemonProxy { ids: Vec::new(), handlers: Vec::new(), pending: Vec::new(), next_request: 0 }
    }

    fn find_robot(&self, id: &[u8]) -> (r: Option<usize>)
        requires
            self.wf(),
        ensures
            match r {
                Some(i) => i < self@.ids.len() && self@.ids[i as int] == id@ && self@.has_robot(id@)
                    && self@.robot_index(id@) == i,
                None => !self@.has_robot(id@),
            },
    {
        let mut i: usize = 0;
        while i < self.ids.len()
            invariant
                self.wf(),
                i <= self@.ids.len(),
                forall|k: int| 0 <= k < i ==> self@.ids[k] != id@,
            decreases self@.ids.len() - i,
        {
            if same_bytes(self.ids[i].as_slice(), id) {
                assert(self@.ids[i as int] == id@);
                return Some(i);
            }
            i = i + 1;
        }
        None
    }

    fn route(&mut self, f: &Inbound, out: &mut Vec<Dispatch>)
        requires
            old(self).wf(),
        ensures
            final(self).wf(),
            final(self)@ == old(self)@.step(f@).0,
            final(out)@ == old(out)@ + old(self)@.step(f@).1,
    {
        match f {
            Inbound::Reply { request_id, reply } => {
                match self.find_pending(*request_id) {
                    Some(i) => {
                        let p = self.pending[i];
                        let fits = match (p.expect, reply) {
                            (ReplyKind::Ack, Reply::Ack) => true,
                            (ReplyKind::FormFactor, Reply::FormFactor { .. }) => true,
                            (ReplyKind::Accelerometer, Reply::Accelerometer { .. }) => true,
                            (ReplyKind::Encoders, Reply::Encoders { .. }) => true,
                            _ => false,
                        };
                        if fits {
                            let ghost pre = self@;
                            self.pending.remove(i);
                            out.push(Dispatch::Completion { request_id: *request_id, callback: p.callback, reply: *reply });
                            assert(self@ == (SessionView { pending: pre.pending.remove(i as int), ..pre }));
                            assert(final(out)@ =~= old(out)@ + old(self)@.step(f@).1);
                        } else {
                            assert(final(out)@ =~= old(out)@ + old(self)@.step(f@).1);
                        }
                    },
                    None => {
                        assert(final(out)@ =~= old(out)@ + old(self)@.step(f@).1);
                    },
                }
            },
            Inbound::Event { device, event } => {
                match self.find_robot(device.as_slice()) {
                    Some(i) => {
                        let h = self.handlers[i];
                        let slot = match event {
                            Event::Accelerometer { .. } => h.accelerometer,
                            Event::Button { .. } => h.button,
                            Event::Joint { .. } => h.joint,
                            Event::Connect { .. } => h.connect,
                        };
                        match slot {
                            Some(handler) => {
                                out.push(Dispatch::Notify { handler, event: *event });
                            },
                            None => {},
                        }
                        assert(final(out)@ =~= old(out)@ + old(self)@.step(f@).1);
                    },
                    None => {
                        assert(final(out)@ =~= old(out)@ + old(self)@.step(f@).1);
                    },
                }
            },
        }
    }

    /// Decodes an inbound buffer and routes its frames in order. A reply whose
    /// request id is pending, and whose shape is the one that command awaits,
    /// completes it: the entry is removed and its callback is named once. An
    /// event for a known device names the handler now registered for its kind.
    /// Anything else is dropped. A buffer that does not decode changes nothing.
    pub fn deliver(&mut self, bytes: &[u8]) -> (r: Result<Vec<Dispatch>, DecodeError>)
        requires
            old(self).wf(),
        ensures
            final(self).wf(),
            match parse_frames(bytes@) {
                Err(e) => r == Err::<Vec<Dispatch>, DecodeError>(e) && final(self)@ == old(self)@,
                Ok(fs) => r is Ok && final(self)@ == old(self)@.run(fs).0 && r->Ok_0@ == old(
                    self,
                )@.run(fs).1,
            },
    {
        let frames = match decode_frames(bytes) {
            Err(e) => {
                return Err(e);
            },
            Ok(fs) => fs,
        };
        let ghost fs = frames@.map_values(|f: Inbound| f@);
        let ghost start = self@;
        let mut out: Vec<Dispatch> = Vec::new();
        let mut i: usize = 0;
        assert(fs.take(0) =~= seq![]);
        while i < frames.len()
            invariant
                self.wf(),
                i <= frames@.len(),
                fs == frames@.map_values(|f: Inbound| f@),
                self@ == start.run(fs.take(i as int)).0,
                out@ == start.run(fs.take(i as int)).1,
            decreases frames@.len() - i,
        {
            self.route(&frames[i], &mut out);
            assert(fs.take(i + 1).drop_last() =~= fs.take(i as int));
            assert(fs.take(i + 1).last() == fs[i as int]);
            i = i + 1;
        }
        assert(fs.take(i as int) =~= fs);
        Ok(out)
    }

    fn issue(&mut self, device: &[u8], c: Command, callback: u64, expect: ReplyKind) -> (r: Result<
        Outgoing,
        EncodeError,
    >)
        requires
            old(self).wf(),
        ensures
            final(self).wf(),
            old(self)@.issues(final(self)@, device@, c, callback, expect, r),
    {
        if device.len() >= 256 {
            return Err(EncodeError::DeviceIdTooLong);
        }
        if self.next_request == u32::MAX {
            return Err(EncodeError::RequestIdsExhausted);
        }
        let request_id = self.next_request;
        let bytes = encode_request(request_id, device, &c);
        self.pending.push(Pending { request_id, callback, expect });
        self.next_request = request_id + 1;
        Ok(Outgoing { request_id, bytes })
    }

    /// The handle for device `id`, registering it with no handlers if it is new.
    /// Every handle for one identifier shares that device's state in this session.
    pub fn get_robot(&mut self, id: &str) -> (r: Robot)
        requires
            old(self).wf(),
        ensures
            final(self).wf(),
            r@ == id.spec_bytes(),
            final(self)@.has_robot(id.spec_bytes()),
            final(self)@ == old(self)@.with_robot(id.spec_bytes()),
    {
        let b = id.as_bytes();
        assert(b@.subrange(0, b@.len() as int) =~= b@);
        match self.find_robot(b) {
            Some(_) => {},
            None => {
                let ghost pre = self@;
                self.ids.push(copy_range(b, 0, b.len()));
                self.handlers.push(Handlers { accelerometer: None, button: None, joint: None, connect: None });
                assert(self@.ids =~= pre.ids.push(b@));
                assert(self@.ids[pre.ids.len() as int] == b@);
            },
        }
        Robot { id: copy_range(b, 0, b.len()) }
    }

    /// Whether `robot` names a device of this session.
    pub fn has_robot(&self, robot: &Robot) -> (r: bool)
        requires
            self.wf(),
        ensures
            r == self@.has_robot(robot@),
    {
        self.find_robot(robot.id.as_slice()).is_some()
    }

    /// The handlers now registered on a device of this session.
    pub fn handlers(&self, robot: &Robot) -> (r: Option<Handlers>)
        requires
            self.wf(),
        ensures
            match r {
                Some(h) => self@.has_robot(robot@) && h == self@.handlers_of(robot@),
                None => !self@.has_robot(robot@),
            },
    {
        match self.find_robot(robot.id.as_slice()) {
            Some(i) => Some(self.handlers[i]),
            None => None,
        }
    }

    /// How many commands await their reply.
    pub fn pending_count(&self) -> (r: usize)
        ensures
            r == self@.pending.len(),
    {
        self.pending.len()
    }

    /// Forgets a pending command whose frame the write sink failed to send.
    /// Returns whether an entry was removed.
    pub fn withdraw(&mut self, request_id: u32) -> (r: bool)
        requires
            old(self).wf(),
        ensures
            final(self).wf(),
            r == old(self)@.is_pending(request_id),
            r ==> final(self)@ == (SessionView {
                pending: old(self)@.pending.remove(old(self)@.pending_index(request_id)),
                ..old(self)@
            }),
            !r ==> final(self)@ == old(self)@,
    {
        match self.find_pending(request_id) {
            Some(i) => {
                let ghost pre = self@;
                self.pending.remove(i);
                assert(self@ == (SessionView { pending: pre.pending.remove(i as int), ..pre }));
                true
            },
            None => false,
        }
    }

    fn set_handler(&mut self, i: usize, kind: EventKind, x: Option<u64>)
        requires
            old(self).wf(),
            i < old(self)@.ids.len(),
        ensures
            final(self).wf(),
            final(self)@ == (SessionView {
                handlers: old(self)@.handlers.update(
                    i as int,
                    with_handler(old(self)@.handlers[i as int], kind, x),
                ),
                ..old(self)@
            }),
    {
        let h = self.handlers[i];
        let nh = match kind {
            EventKind::Accelerometer => Handlers { accelerometer: x, ..h },
            EventKind::Button => Handlers { button: x, ..h },
            EventKind::Joint => Handlers { joint: x, ..h },
            EventKind::Connect => Handlers { connect: x, ..h },
        };
        self.handlers.set(i, nh);
    }

    /// Registers `handler` for `kind` on `robot`, or clears it when `None`, and
    /// issues the matching enable or disable command, whose acknowledgement
    /// completes `completion`. When the command cannot be issued nothing changes.
    fn set_event_handler(&mut self, robot: &Robot, kind: EventKind, handler: Option<u64>, completion: u64)
        -> (r: Result<Outgoing, EncodeError>)
        requires
            old(self).wf(),
            old(self)@.has_robot(robot@),
        ensures
            final(self).wf(),
            old(self)@.issues(
                SessionView { handlers: old(self)@.handlers, ..final(self)@ },
                robot@,
                Command::EnableEvent { kind, enable: handler is Some },
                completion,
                ReplyKind::Ack,
                r,
            ),
            r is Ok ==> final(self)@.handlers == old(self)@.handlers.update(
                old(self)@.robot_index(robot@),
                with_handler(old(self)@.handlers_of(robot@), kind, handler),
            ),
            r is Err ==> final(self)@ == old(self)@,
    {
        let i = self.find_robot(robot.id.as_slice()).unwrap();
        let r = self.issue(robot.id.as_slice(), Command::EnableEvent { kind, enable: handler.is_some() }, completion, ReplyKind::Ack);
        if r.is_ok() {
            self.set_handler(i, kind, handler);
        }
        r
    }

    /// Registers `handler` for accelerometer events on `robot`, or clears it when `None`,
    /// and asks the device to start or stop streaming them; the acknowledgement
    /// completes `completion`. When the command cannot be issued nothing changes.
    pub fn robot_set_accelerometer_event_handler(
        &mut self,
        robot: &Robot,
        handler: Option<u64>,
        completion: u64,
    ) -> (r: Result<Outgoing, EncodeError>)
        requires
            old(self).wf(),
            old(self)@.has_robot(robot@),
        ensures
            final(self).wf(),
            old(self)@.issues(
                SessionView { handlers: old(self)@.handlers, ..final(self)@ },
                robot@,
                Command::EnableEvent { kind: EventKind::Accelerometer, enable: handler is Some },
                completion,
                ReplyKind::Ack,
                r,
            ),
            r is Ok ==> final(self)@.handlers == old(self)@.handlers.update(
                old(self)@.robot_index(robot@),
                with_handler(old(self)@.handlers_of(robot@), EventKind::Accelerometer, handler),
            ),
            r is Err ==> final(self)@ == old(self)@,
    {
        self.set_event_handler(robot, EventKind::Accelerometer, handler, completion)
    }

    /// Registers `handler` for button events on `robot`, or clears it when `None`,
    /// and asks the device to start or stop streaming them; the acknowledgement
    /// completes `completion`. When the command cannot be issued nothing changes.
    pub fn robot_set_button_event_handler(&mut self, robot: &Robot, handler: Option<u64>, completion: u64) -> (r: Result<
        Outgoing,
        EncodeError,
    >)
        requires
            old(self).wf(),
            old(self)@.has_robot(robot@),
        ensures
            final(self).wf(),
            old(self)@.issues(
                SessionView { handlers: old(self)@.handlers, ..final(self)@ },
                robot@,
                Command::EnableEvent { kind: EventKind::Button, enable: handler is Some },
                completion,
                ReplyKind::Ack,
                r,
            ),
            r is Ok ==> final(self)@.handlers == old(self)@.handlers.update(
                old(self)@.robot_index(robot@),
                with_handler(old(self)@.handlers_of(robot@), EventKind::Button, handler),
            ),
            r is Err ==> final(self)@ == old(self)@,
    {
        self.set_event_handler(robot, EventKind::Button, handler, completion)
    }

    /// Registers `handler` for joint events on `robot`, or clears it when `None`,
    /// and asks the device to start or stop streaming them; the acknowledgement
    /// completes `completion`. When the command cannot be issued nothing changes.
    pub fn robot_set_joint_event_handler(&mut self, robot: &Robot, handler: Option<u64>, completion: u64) -> (r: Result<
        Outgoing,
        EncodeError,
    >)
        requires
            old(self).wf(),
            old(self)@.has_robot(robot@),
        ensures
            final(self).wf(),
            old(self)@.issues(
                SessionView { handlers: old(self)@.handlers, ..final(self)@ },
                robot@,
                Command::EnableEvent { kind: EventKind::Joint, enable: handler is Some },
                completion,
                ReplyKind::Ack,
                r,
            ),
            r is Ok ==> final(self)@.handlers == old(self)@.handlers.update(
                old(self)@.robot_index(robot@),
                with_handler(old(self)@.handlers_of(robot@), EventKind::Joint, handler),
            ),
            r is Err ==> final(self)@ == old(self)@,
    {
        self.set_event_handler(robot, EventKind::Joint, handler, completion)
    }

    /// Registers `handler` as `robot`'s connect handler and asks the session to
    /// connect the device; the acknowledgement completes `handler`, and later
    /// connect events notify it. When the command cannot be issued nothing changes.
    pub fn connect_robot(&mut self, robot: &Robot, handler: u64) -> (r: Result<Outgoing, EncodeError>)
        requires
            old(self).wf(),
            old(self)@.has_robot(robot@),
        ensures
            final(self).wf(),
            old(self)@.issues(
                SessionView { handlers: old(self)@.handlers, ..final(self)@ },
                robot@,
                Command::ConnectRobot,
                handler,
                ReplyKind::Ack,
                r,
            ),
            r is Ok ==> final(self)@.handlers == old(self)@.handlers.update(
                old(self)@.robot_index(robot@),
                with_handler(old(self)@.handlers_of(robot@), EventKind::Connect, Some(handler)),
            ),
            r is Err ==> final(self)@ == old(self)@,
    {
        let i = self.find_robot(robot.id.as_slice()).unwrap();
        let r = self.issue(robot.id.as_slice(), Command::ConnectRobot, handler, ReplyKind::Ack);
        if r.is_ok() {
            self.set_handler(i, EventKind::Connect, Some(handler));
        }
        r
    }

    /// Asks the session to stop every device; the acknowledgement completes `callback`.
    pub fn stop_all(&mut self, callback: u64) -> (r: Result<Outgoing, EncodeError>)
        requires
            old(self).wf(),
        ensures
            final(self).wf(),
            old(self)@.issues(final(self)@, Seq::<u8>::empty(), Command::StopAll, callback, ReplyKind::Ack, r),
    {
        let session: Vec<u8> = Vec::new();
        assert(session@ =~= Seq::<u8>::empty());
        self.issue(session.as_slice(), Command::StopAll, callback, ReplyKind::Ack)
    }

    /// Reads the device's form factor; the reply carries it.
    pub fn robot_get_form_factor(&mut self, robot: &Robot, callback: u64) -> (r: Result<Outgoing, EncodeError>)
        requires
            old(self).wf(),
        ensures
            final(self).wf(),
            old(self)@.issues(final(self)@, robot@, Command::GetFormFactor, callback, ReplyKind::FormFactor, r),
    {
        self.issue(robot.id.as_slice(), Command::GetFormFactor, callback, ReplyKind::FormFactor)
    }

    /// Reads the accelerometer; the reply carries the three axes.
    pub fn robot_get_accelerometer(&mut self, robot: &Robot, callback: u64) -> (r: Result<Outgoing, EncodeError>)
        requires
            old(self).wf(),
        ensures
            final(self).wf(),
            old(self)@.issues(final(self)@, robot@, Command::GetAccelerometer, callback, ReplyKind::Accelerometer, r),
    {
        self.issue(robot.id.as_slice(), Command::GetAccelerometer, callback, ReplyKind::Accelerometer)
    }

    /// Reads the joint encoders; the reply carries a timestamp and three angles.
    pub fn robot_get_joint_angles(&mut self, robot: &Robot, callback: u64) -> (r: Result<Outgoing, EncodeError>)
        requires
            old(self).wf(),
        ensures
            final(self).wf(),
            old(self)@.issues(final(self)@, robot@, Command::GetEncoderValues, callback, ReplyKind::Encoders, r),
    {
        self.issue(robot.id.as_slice(), Command::GetEncoderValues, callback, ReplyKind::Encoders)
    }

    /// Resets the encoders' revolution counts.
    pub fn robot_reset_encoders(&mut self, robot: &Robot, callback: u64) -> (r: Result<Outgoing, EncodeError>)
        requires
            old(self).wf(),
        ensures
            final(self).wf(),
            old(self)@.issues(final(self)@, robot@, Command::ResetEncoderRevs, callback, ReplyKind::Ack, r),
    {
        self.issue(robot.id.as_slice(), Command::ResetEncoderRevs, callback, ReplyKind::Ack)
    }

    /// Sets the buzzer frequency (bits of a single-precision number, in hertz).
    pub fn robot_set_buzzer_frequency(&mut self, robot: &Robot, frequency: u32, callback: u64) -> (r: Result<Outgoing, EncodeError>)
        requires
            old(self).wf(),
        ensures
            final(self).wf(),
            old(self)@.issues(final(self)@, robot@, Command::SetBuzzerFrequency { frequency }, callback, ReplyKind::Ack, r),
    {
        self.issue(robot.id.as_slice(), Command::SetBuzzerFrequency { frequency }, callback, ReplyKind::Ack)
    }

    /// Sets the LED color.
    pub fn robot_set_led_color(&mut self, robot: &Robot, red: u8, green: u8, blue: u8, callback: u64) -> (r: Result<Outgoing, EncodeError>)
        requires
            old(self).wf(),
        ensures
            final(self).wf(),
            old(self)@.issues(final(self)@, robot@, Command::SetLedColor { red, green, blue }, callback, ReplyKind::Ack, r),
    {
        self.issue(robot.id.as_slice(), Command::SetLedColor { red, green, blue }, callback, ReplyKind::Ack)
    }

    /// Sets the speeds of the joints selected by `mask` (bits of single-precision numbers, in radians per second).
    pub fn robot_set_motor_speeds(&mut self, robot: &Robot, mask: u8, speed1: u32, speed2: u32, speed3: u32, callback: u64) -> (r: Result<Outgoing, EncodeError>)
        requires
            old(self).wf(),
        ensures
            final(self).wf(),
            old(self)@.issues(final(self)@, robot@, Command::SetMotorSpeeds { mask, speed1, speed2, speed3 }, callback, ReplyKind::Ack, r),
    {
        self.issue(robot.id.as_slice(), Command::SetMotorSpeeds { mask, speed1, speed2, speed3 }, callback, ReplyKind::Ack)
    }

    /// Moves the joints selected by `mask` in one command; bit `j` of
    /// `relative_mask` makes joint `j`'s target relative. One acknowledgement
    /// completes `callback`.
    pub fn robot_move(
        &mut self,
        robot: &Robot,
        mask: u8,
        relative_mask: u8,
        angle1: u32,
        angle2: u32,
        angle3: u32,
        callback: u64,
    ) -> (r: Result<Outgoing, EncodeError>)
        requires
            old(self).wf(),
        ensures
            final(self).wf(),
            old(self)@.issues(
                final(self)@,
                robot@,
                Command::Move {
                    goal1: joint_goal(mask, relative_mask, 0, angle1),
                    goal2: joint_goal(mask, relative_mask, 1, angle2),
                    goal3: joint_goal(mask, relative_mask, 2, angle3),
                },
                callback,
                ReplyKind::Ack,
                r,
            ),
    {
        let c = Command::Move {
            goal1: make_joint_goal(mask, relative_mask, 0, angle1),
            goal2: make_joint_goal(mask, relative_mask, 1, angle2),
            goal3: make_joint_goal(mask, relative_mask, 2, angle3),
        };
        self.issue(robot.id.as_slice(), c, callback, ReplyKind::Ack)
    }

    fn find_pending(&self, request_id: u32) -> (r: Option<usize>)
        requires
            self.wf(),
        ensures
            match r {
                Some(i) => i < self@.pending.len() && self@.is_pending(request_id)
                    && self@.pending_index(request_id) == i,
                None => !self@.is_pending(request_id),
            },
    {
        let mut i: usize = 0;
        while i < self.pending.len()
            invariant
                self.wf(),
                i <= self@.pending.len(),
                forall|k: int| 0 <= k < i ==> self@.pending[k].request_id != request_id,
            decreases self@.pending.len() - i,
        {
            if self.pending[i].request_id == request_id {
                assert(self@.pending[i as int].request_id == request_id);
                return Some(i);
            }
            i = i + 1;
        }
        None
    }
}

} // verus!
