use vstd::prelude::*;
use crate::wire::{le_bytes, lemma_u32_at_le, push_u32, read_u32, u32_at, DecodeError};

verus! {

/// Whether a goal's target angle is absolute or relative to the joint's current position.
#[derive(Debug, Clone, Copy, PartialEq, Eq, Structural)]
pub enum GoalType {
    Absolute,
    Relative,
}

/// The motion controller that drives a joint toward its goal.
#[derive(Debug, Clone, Copy, PartialEq, Eq, Structural)]
pub enum GoalController {
    Pid,
    ConstVel,
    Smooth,
    Accel,
}

/// One joint's motion target. The angle is in radians, held as the bit
/// pattern of an IEEE-754 single-precision number.
#[derive(Debug, Clone, Copy, PartialEq, Eq, Structural)]
pub struct Goal {
    pub field_type: GoalType,
    pub goal: u32,
    pub controller: GoalController,
}

pub open spec fn goal_type_tag(t: GoalType) -> u8 {
    match t {
        GoalType::Absolute => 0,
        GoalType::Relative => 1,
    }
}

pub open spec fn controller_tag(c: GoalController) -> u8 {
    match c {
        GoalController::Pid => 0,
        GoalController::ConstVel => 1,
        GoalController::Smooth => 2,
        GoalController::Accel => 3,
    }
}

pub open spec fn goal_type_of(b: u8) -> Option<GoalType> {
    if b == 0 {
        Some(GoalType::Absolute)
    } else if b == 1 {
        Some(GoalType::Relative)
    } else {
        None
    }
}

pub open spec fn controller_of(b: u8) -> Option<GoalController> {
    if b == 0 {
        Some(GoalController::Pid)
    } else if b == 1 {
        Some(GoalController::ConstVel)
    } else if b == 2 {
        Some(GoalController::Smooth)
    } else if b == 3 {
        Some(GoalController::Accel)
    } else {
        None
    }
}

/// The six bytes of a goal: type tag, controller tag, then the angle little-endian.
pub open spec fn goal_bytes(g: Goal) -> Seq<u8> {
    seq![goal_type_tag(g.field_type), controller_tag(g.controller)] + le_bytes(g.goal)
}

pub const GOAL_LEN: usize = 6;

/// The goal whose encoding starts at offset `p` of `b`, if the tags there are known.
pub open spec fn goal_at(b: Seq<u8>, p: int) -> Option<Goal> {
    match (goal_type_of(b[p]), controller_of(b[p + 1])) {
        (Some(t), Some(c)) => Some(Goal { field_type: t, goal: u32_at(b, p + 2), controller: c }),
        _ => None,
    }
}

/// What decoding a whole buffer as one goal yields.
pub open spec fn parse_goal(b: Seq<u8>) -> Result<Goal, DecodeError> {
    if b.len() < 6 {
        Err(DecodeError::Truncated)
    } else if b.len() > 6 {
        Err(DecodeError::TrailingBytes)
    } else {
        match goal_at(b, 0) {
            Some(g) => Ok(g),
            None => Err(DecodeError::UnknownTag),
        }
    }
}

/// A goal's encoding, wherever it stands in a buffer, reads back as the same goal.
pub proof fn lemma_goal_at_bytes(pre: Seq<u8>, g: Goal, post: Seq<u8>)
    ensures
        goal_at(pre + goal_bytes(g) + post, pre.len() as int) == Some(g),
{
    let b = pre + goal_bytes(g) + post;
    let p = pre.len() as int;
    let pre2 = pre + seq![goal_type_tag(g.field_type), controller_tag(g.controller)];
    assert(b =~= pre2 + le_bytes(g.goal) + post);
    lemma_u32_at_le(pre2, g.goal, post);
    assert(b[p] == goal_type_tag(g.field_type));
    assert(b[p + 1] == controller_tag(g.controller));
}

/// Encoding a goal and decoding the bytes gives back the same type, angle and controller.
pub proof fn lemma_goal_round_trip(g: Goal)
    ensures
        parse_goal(goal_bytes(g)) == Ok::<Goal, DecodeError>(g),
{
    lemma_goal_at_bytes(seq![], g, seq![]);
    assert(seq![] + goal_bytes(g) + seq![] =~= goal_bytes(g));
}

pub fn push_goal(out: &mut Vec<u8>, g: &Goal)
    ensures
        final(out)@ == old(out)@ + goal_bytes(*g),
{
    let t: u8 = match g.field_type {
        GoalType::Absolute => 0,
        GoalType::Relative => 1,
    };
    let c: u8 = match g.controller {
        GoalController::Pid => 0,
        GoalController::ConstVel => 1,
        GoalController::Smooth => 2,
        GoalController::Accel => 3,
    };
    out.push(t);
    out.push(c);
    push_u32(out, g.goal);
    assert(final(out)@ =~= old(out)@ + goal_bytes(*g));
}

impl Goal {
    /// A goal with every field set at once.
    pub fn new(field_type: GoalType, goal: u32, controller: GoalController) -> (r: Goal)
        ensures
            r.field_type == field_type,
            r.goal == goal,
            r.controller == controller,
    {
        Goal { field_type, goal, controller }
    }

    /// The goal's six-byte encoding.
    pub fn to_bytes(&self) -> (r: Vec<u8>)
        ensures
            r@ == goal_bytes(*self),
    {
        let mut out: Vec<u8> = Vec::new();
        push_goal(&mut out, self);
        assert(out@ =~= goal_bytes(*self));
        out
    }

    /// Decodes a buffer that holds exactly one goal's encoding.
    pub fn from_bytes(b: &[u8]) -> (r: Result<Goal, DecodeError>)
        ensures
            r == parse_goal(b@),
    {
        if b.len() < GOAL_LEN {
            return Err(DecodeError::Truncated);
        }
        if b.len() > GOAL_LEN {
            return Err(DecodeError::TrailingBytes);
        }
        let t = if b[0] == 0 {
            GoalType::Absolute
        } else if b[0] == 1 {
            GoalType::Relative
        } else {
            return Err(DecodeError::UnknownTag);
        };
        let c = if b[1] == 0 {
            GoalController::Pid
        } else if b[1] == 1 {
            GoalController::ConstVel
        } else if b[1] == 2 {
            GoalController::Smooth
        } else if b[1] == 3 {
            GoalController::Accel
        } else {
            return Err(DecodeError::UnknownTag);
        };
        Ok(Goal { field_type: t, goal: read_u32(b, 2), controller: c })
    }
}

} // verus!
