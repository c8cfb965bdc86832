//! The frame format. Requests carry a request id that the reply repeats, so
//! replies are matched to commands by id; events carry the device identifier.
//! All words are little-endian.

use vstd::prelude::*;
use crate::goal::{goal_bytes, push_goal, Goal};
use crate::wire::{le_bytes, push_u32, read_u32, u32_at, DecodeError};

verus! {

/// The kinds of unsolicited notification a device can stream.
#[derive(Debug, Clone, Copy, PartialEq, Eq, Structural)]
pub enum EventKind {
    Accelerometer,
    Button,
    Joint,
    Connect,
}

/// A request to a device or to the session. Angles, speeds and frequencies
/// are bit patterns of single-precision numbers, angles in radians.
#[derive(Debug, Clone, Copy, PartialEq, Eq, Structural)]
pub enum Command {
    SetLedColor { red: u8, green: u8, blue: u8 },
    SetMotorSpeeds { mask: u8, speed1: u32, speed2: u32, speed3: u32 },
    Move { goal1: Option<Goal>, goal2: Option<Goal>, goal3: Option<Goal> },
    GetAccelerometer,
    GetEncoderValues,
    ResetEncoderRevs,
    SetBuzzerFrequency { frequency: u32 },
    GetFormFactor,
    EnableEvent { kind: EventKind, enable: bool },
    ConnectRobot,
    StopAll,
}

/// The decoded payload of a reply to a command.
#[derive(Debug, Clone, Copy, PartialEq, Eq, Structural)]
pub enum Reply {
    Ack,
    FormFactor { form: u32 },
    Accelerometer { x: u32, y: u32, z: u32 },
    Encoders { timestamp: u32, angle1: u32, angle2: u32, angle3: u32 },
}

/// The decoded payload of an event notification; `timestamp` is the device clock.
#[derive(Debug, Clone, Copy, PartialEq, Eq, Structural)]
pub enum Event {
    Accelerometer { timestamp: u32, x: u32, y: u32, z: u32 },
    Button { timestamp: u32, button: u32, state: u32 },
    Joint { timestamp: u32, joint: u32, state: u32, angle: u32 },
    Connect { timestamp: u32 },
}

/// One decoded inbound frame.
pub enum Inbound {
    Reply { request_id: u32, reply: Reply },
    Event { device: Vec<u8>, event: Event },
}

/// What an inbound frame means, with the device identifier as a sequence.
pub enum Frame {
    Reply { request_id: u32, reply: Reply },
    Event { device: Seq<u8>, event: Event },
}

impl View for Inbound {
    type V = Frame;

    open spec fn view(&self) -> Frame {
        match self {
            Inbound::Reply { request_id, reply } => Frame::Reply {
                request_id: *request_id,
                reply: *reply,
            },
            Inbound::Event { device, event } => Frame::Event { device: device@, event: *event },
        }
    }
}

pub open spec fn event_kind_tag(k: EventKind) -> u8 {
    match k {
        EventKind::Accelerometer => 0,
        EventKind::Button => 1,
        EventKind::Joint => 2,
        EventKind::Connect => 3,
    }
}

pub open spec fn opt_goal_bytes(g: Option<Goal>) -> Seq<u8> {
    match g {
        None => seq![0u8],
        Some(g) => seq![1u8] + goal_bytes(g),
    }
}

/// A command's bytes: a tag, then its fields in order.
pub open spec fn command_bytes(c: Command) -> Seq<u8> {
    match c {
        Command::SetLedColor { red, green, blue } => seq![0u8, red, green, blue],
        Command::SetMotorSpeeds { mask, speed1, speed2, speed3 } => seq![1u8, mask] + le_bytes(
            speed1,
        ) + le_bytes(speed2) + le_bytes(speed3),
        Command::Move { goal1, goal2, goal3 } => seq![2u8] + opt_goal_bytes(goal1)
            + opt_goal_bytes(goal2) + opt_goal_bytes(goal3),
        Command::GetAccelerometer => seq![3u8],
        Command::GetEncoderValues => seq![4u8],
        Command::ResetEncoderRevs => seq![5u8],
        Command::SetBuzzerFrequency { frequency } => seq![6u8] + le_bytes(frequency),
        Command::GetFormFactor => seq![7u8],
        Command::EnableEvent { kind, enable } => seq![
            8u8,
            event_kind_tag(kind),
            if enable {
                1u8
            } else {
                0u8
            },
        ],
        Command::ConnectRobot => seq![9u8],
        Command::StopAll => seq![10u8],
    }
}

/// A request frame: the request id little-endian, the length of the device
/// identifier in one byte, the identifier (empty for the session), the command.
pub open spec fn request_bytes(request_id: u32, device: Seq<u8>, c: Command) -> Seq<u8> {
    le_bytes(request_id) + seq![device.len() as u8] + device + command_bytes(c)
}

fn push_opt_goal(out: &mut Vec<u8>, g: &Option<Goal>)
    ensures
        final(out)@ == old(out)@ + opt_goal_bytes(*g),
{
    match g {
        None => {
            out.push(0u8);
            assert(final(out)@ =~= old(out)@ + opt_goal_bytes(*g));
        },
        Some(goal) => {
            out.push(1u8);
            push_goal(out, goal);
            assert(final(out)@ =~= old(out)@ + opt_goal_bytes(*g));
        },
    }
}

fn push_command(out: &mut Vec<u8>, c: &Command)
    ensures
        final(out)@ == old(out)@ + command_bytes(*c),
{
    let ghost start = out@;
    match c {
        Command::SetLedColor { red, green, blue } => {
            out.push(0u8);
            out.push(*red);
            out.push(*green);
            out.push(*blue);
        },
        Command::SetMotorSpeeds { mask, speed1, speed2, speed3 } => {
            out.push(1u8);
            out.push(*mask);
            push_u32(out, *speed1);
            push_u32(out, *speed2);
            push_u32(out, *speed3);
        },
        Command::Move { goal1, goal2, goal3 } => {
            out.push(2u8);
            push_opt_goal(out, goal1);
            push_opt_goal(out, goal2);
            push_opt_goal(out, goal3);
        },
        Command::GetAccelerometer => out.push(3u8),
        Command::GetEncoderValues => out.push(4u8),
        Command::ResetEncoderRevs => out.push(5u8),
        Command::SetBuzzerFrequency { frequency } => {
            out.push(6u8);
            push_u32(out, *frequency);
        },
        Command::GetFormFactor => out.push(7u8),
        Command::EnableEvent { kind, enable } => {
            out.push(8u8);
            let k: u8 = match kind {
                EventKind::Accelerometer => 0,
                EventKind::Button => 1,
                EventKind::Joint => 2,
                EventKind::Connect => 3,
            };
            out.push(k);
            out.push(if *enable { 1u8 } else { 0u8 });
        },
        Command::ConnectRobot => out.push(9u8),
        Command::StopAll => out.push(10u8),
    }
    assert(out@ =~= start + command_bytes(*c));
}

/// Encodes a request frame for `device` (empty for the session).
pub fn encode_request(request_id: u32, device: &[u8], c: &Command) -> (r: Vec<u8>)
    requires
        device@.len() < 256,
    ensures
        r@ == request_bytes(request_id, device@, *c),
{
    let mut out: Vec<u8> = Vec::new();
    push_u32(&mut out, request_id);
    out.push(device.len() as u8);
    let mut i: usize = 0;
    while i < device.len()
        invariant
            i <= device@.len(),
            out@ == le_bytes(request_id) + seq![device@.len() as u8] + device@.subrange(0, i as int),
        decreases device@.len() - i,
    {
        out.push(device[i]);
        i = i + 1;
        assert(device@.subrange(0, i as int) =~= device@.subrange(0, i - 1) + seq![device@[i - 1]]);
        assert(out@ =~= le_bytes(request_id) + seq![device@.len() as u8] + device@.subrange(0, i as int));
    }
    assert(device@.subrange(0, i as int) =~= device@);
    push_command(&mut out, c);
    assert(out@ =~= request_bytes(request_id, device@, *c));
    out
}

/// Bytes of payload that follow a reply tag.
pub open spec fn reply_len(t: u8) -> int {
    if t == 0 { 0 } else if t == 1 { 4 } else if t == 2 { 12 } else { 16 }
}

/// The reply with tag `t` whose words start at offset `q`.
pub open spec fn reply_from(t: u8, b: Seq<u8>, q: int) -> Reply {
    if t == 0 {
        Reply::Ack
    } else if t == 1 {
        Reply::FormFactor { form: u32_at(b, q) }
    } else if t == 2 {
        Reply::Accelerometer { x: u32_at(b, q), y: u32_at(b, q + 4), z: u32_at(b, q + 8) }
    } else {
        Reply::Encoders {
            timestamp: u32_at(b, q),
            angle1: u32_at(b, q + 4),
            angle2: u32_at(b, q + 8),
            angle3: u32_at(b, q + 12),
        }
    }
}

/// Bytes of payload that follow an event tag.
pub open spec fn event_len(t: u8) -> int {
    if t == 0 { 16 } else if t == 1 { 12 } else if t == 2 { 16 } else { 4 }
}

/// The event with tag `t` whose words start at offset `q`.
pub open spec fn event_from(t: u8, b: Seq<u8>, q: int) -> Event {
    if t == 0 {
        Event::Accelerometer {
            timestamp: u32_at(b, q),
            x: u32_at(b, q + 4),
            y: u32_at(b, q + 8),
            z: u32_at(b, q + 12),
        }
    } else if t == 1 {
        Event::Button { timestamp: u32_at(b, q), button: u32_at(b, q + 4), state: u32_at(b, q + 8) }
    } else if t == 2 {
        Event::Joint {
            timestamp: u32_at(b, q),
            joint: u32_at(b, q + 4),
            state: u32_at(b, q + 8),
            angle: u32_at(b, q + 12),
        }
    } else {
        Event::Connect { timestamp: u32_at(b, q) }
    }
}

/// The inbound frame that starts at offset `p` of `b`, with the offset where it ends.
/// A reply frame is `0`, the request id little-endian, a reply tag and its words;
/// an event frame is `1`, a length byte, the device identifier, an event tag and its words.
pub open spec fn frame_at(b: Seq<u8>, p: int) -> Result<(Frame, int), DecodeError> {
    if b[p] == 0 {
        if b.len() - p < 6 {
            Err(DecodeError::Truncated)
        } else if b[p + 5] > 3 {
            Err(DecodeError::UnknownTag)
        } else if b.len() - p - 6 < reply_len(b[p + 5]) {
            Err(DecodeError::Truncated)
        } else {
            Ok(
                (
                    Frame::Reply {
                        request_id: u32_at(b, p + 1),
                        reply: reply_from(b[p + 5], b, p + 6),
                    },
                    p + 6 + reply_len(b[p + 5]),
                ),
            )
        }
    } else if b[p] == 1 {
        if b.len() - p < 2 {
            Err(DecodeError::Truncated)
        } else if b.len() - p - 2 < b[p + 1] + 1 {
            Err(DecodeError::Truncated)
        } else if b[p + 2 + b[p + 1]] > 3 {
            Err(DecodeError::UnknownTag)
        } else if b.len() - p - 3 - b[p + 1] < event_len(b[p + 2 + b[p + 1]]) {
            Err(DecodeError::Truncated)
        } else {
            Ok(
                (
                    Frame::Event {
                        device: b.subrange(p + 2, p + 2 + b[p + 1]),
                        event: event_from(b[p + 2 + b[p + 1]], b, p + 3 + b[p + 1]),
                    },
                    p + 3 + b[p + 1] + event_len(b[p + 2 + b[p + 1]]),
                ),
            )
        }
    } else {
        Err(DecodeError::UnknownTag)
    }
}

/// The frames of `b` from offset `p` to its end, or the first error met.
pub open spec fn frames_from(b: Seq<u8>, p: int) -> Result<Seq<Frame>, DecodeError>
    decreases b.len() - p,
{
    if p < 0 || p >= b.len() {
        Ok(seq![])
    } else {
        match frame_at(b, p) {
            Err(e) => Err(e),
            Ok((f, end)) => if end <= p {
                Err(DecodeError::Truncated)
            } else {
                match frames_from(b, end) {
                    Err(e) => Err(e),
                    Ok(rest) => Ok(seq![f] + rest),
                }
            },
        }
    }
}

/// What decoding a whole inbound buffer yields.
pub open spec fn parse_frames(b: Seq<u8>) -> Result<Seq<Frame>, DecodeError> {
    frames_from(b, 0)
}

fn read_reply(b: &[u8], t: u8, q: usize) -> (r: Reply)
    requires
        b@.len() <= usize::MAX,
        t <= 3,
        q + reply_len(t) <= b@.len(),
    ensures
        r == reply_from(t, b@, q as int),
{
    if t == 0 {
        Reply::Ack
    } else if t == 1 {
        Reply::FormFactor { form: read_u32(b, q) }
    } else if t == 2 {
        Reply::Accelerometer { x: read_u32(b, q), y: read_u32(b, q + 4), z: read_u32(b, q + 8) }
    } else {
        Reply::Encoders {
            timestamp: read_u32(b, q),
            angle1: read_u32(b, q + 4),
            angle2: read_u32(b, q + 8),
            angle3: read_u32(b, q + 12),
        }
    }
}

fn read_event(b: &[u8], t: u8, q: usize) -> (r: Event)
    requires
        b@.len() <= usize::MAX,
        t <= 3,
        q + event_len(t) <= b@.len(),
    ensures
        r == event_from(t, b@, q as int),
{
    if t == 0 {
        Event::Accelerometer {
            timestamp: read_u32(b, q),
            x: read_u32(b, q + 4),
            y: read_u32(b, q + 8),
            z: read_u32(b, q + 12),
        }
    } else if t == 1 {
        Event::Button { timestamp: read_u32(b, q), button: read_u32(b, q + 4), state: read_u32(b, q + 8) }
    } else if t == 2 {
        Event::Joint {
            timestamp: read_u32(b, q),
            joint: read_u32(b, q + 4),
            state: read_u32(b, q + 8),
            angle: read_u32(b, q + 12),
        }
    } else {
        Event::Connect { timestamp: read_u32(b, q) }
    }
}

/// The bytes of `b` from `start` up to `end`.
pub(crate) fn copy_range(b: &[u8], start: usize, end: usize) -> (r: Vec<u8>)
    requires
        start <= end <= b@.len(),
    ensures
        r@ == b@.subrange(start as int, end as int),
{
    let mut v: Vec<u8> = Vec::new();
    let mut i: usize = start;
    while i < end
        invariant
            start <= i <= end <= b@.len(),
            v@ == b@.subrange(start as int, i as int),
        decreases end - i,
    {
        v.push(b[i]);
        i = i + 1;
        assert(v@ =~= b@.subrange(start as int, i as int));
    }
    v
}

fn decode_frame(b: &[u8], p: usize) -> (r: Result<(Inbound, usize), DecodeError>)
    requires
        p < b@.len(),
    ensures
        match r {
            Ok((f, end)) => frame_at(b@, p as int) == Ok::<(Frame, int), DecodeError>(
                (f@, end as int),
            ),
            Err(e) => frame_at(b@, p as int) == Err::<(Frame, int), DecodeError>(e),
        },
{
    let left = b.len() - p;
    assert(b@.len() <= usize::MAX);
    if b[p] == 0 {
        if left < 6 {
            return Err(DecodeError::Truncated);
        }
        let t = b[p + 5];
        if t > 3 {
            return Err(DecodeError::UnknownTag);
        }
        let n: usize = if t == 0 { 0 } else if t == 1 { 4 } else if t == 2 { 12 } else { 16 };
        if left - 6 < n {
            return Err(DecodeError::Truncated);
        }
        let reply = read_reply(b, t, p + 6);
        Ok((Inbound::Reply { request_id: read_u32(b, p + 1), reply }, p + 6 + n))
    } else if b[p] == 1 {
        if left < 2 {
            return Err(DecodeError::Truncated);
        }
        let len = b[p + 1] as usize;
        if left - 2 < len + 1 {
            return Err(DecodeError::Truncated);
        }
        let t = b[p + 2 + len];
        if t > 3 {
            return Err(DecodeError::UnknownTag);
        }
        let n: usize = if t == 0 { 16 } else if t == 1 { 12 } else if t == 2 { 16 } else { 4 };
        if left - 3 - len < n {
            return Err(DecodeError::Truncated);
        }
        let device = copy_range(b, p + 2, p + 2 + len);
        let event = read_event(b, t, p + 3 + len);
        Ok((Inbound::Event { device, event }, p + 3 + len + n))
    } else {
        Err(DecodeError::UnknownTag)
    }
}

/// Decodes an inbound buffer into the frames it holds, in order.
pub fn decode_frames(b: &[u8]) -> (r: Result<Vec<Inbound>, DecodeError>)
    ensures
        match r {
            Ok(fs) => parse_frames(b@) == Ok::<Seq<Frame>, DecodeError>(fs@.map_values(|f: Inbound| f@)),
            Err(e) => parse_frames(b@) == Err::<Seq<Frame>, DecodeError>(e),
        },
{
    let mut out: Vec<Inbound> = Vec::new();
    let mut p: usize = 0;
    while p < b.len()
        invariant
            p <= b@.len(),
            parse_frames(b@) == match frames_from(b@, p as int) {
                Ok(rest) => Ok::<Seq<Frame>, DecodeError>(out@.map_values(|f: Inbound| f@) + rest),
                Err(e) => Err(e),
            },
        decreases b@.len() - p,
    {
        let ghost before = out@.map_values(|f: Inbound| f@);
        match decode_frame(b, p) {
            Err(e) => {
                return Err(e);
            },
            Ok((f, end)) => {
                let ghost fv = f@;
                out.push(f);
                assert(out@.map_values(|f: Inbound| f@) =~= before + seq![fv]);
                proof {
                    match frames_from(b@, end as int) {
                        Ok(rest) => {
                            assert(before + (seq![fv] + rest) =~= before + seq![fv] + rest);
                        },
                        Err(_) => {},
                    }
                }
                p = end;
            },
        }
    }
    assert(out@.map_values(|f: Inbound| f@) + seq![] =~= out@.map_values(|f: Inbound| f@));
    Ok(out)
}

} // verus!
