use vstd::prelude::*;
use crate::frame::{Command, Event, Frame, Reply};
use crate::session::{
    handler_for, kind_of, reply_fits, with_handler, Dispatch, EncodeError, Outgoing, ReplyKind,
    SessionView,
};

verus! {

/// How many completions of the command sent as `n` occur in `ds`.
pub open spec fn completions_for(ds: Seq<Dispatch>, n: u32) -> nat
    decreases ds.len(),
{
    if ds.len() == 0 {
        0
    } else {
        completions_for(ds.drop_last(), n) + match ds.last() {
            Dispatch::Completion { request_id, .. } => if request_id == n {
                1nat
            } else {
                0nat
            },
            _ => 0nat,
        }
    }
}

/// One if the command sent as `n` awaits its reply in `s`, else zero.
pub open spec fn awaiting(s: SessionView, n: u32) -> nat {
    if s.is_pending(n) {
        1
    } else {
        0
    }
}

/// Whether `f` is a reply frame for the command sent as `n`.
pub open spec fn replies_to(f: Frame, n: u32) -> bool {
    match f {
        Frame::Reply { request_id, .. } => request_id == n,
        _ => false,
    }
}

proof fn lemma_completions_append(a: Seq<Dispatch>, b: Seq<Dispatch>, n: u32)
    ensures
        completions_for(a + b, n) == completions_for(a, n) + completions_for(b, n),
    decreases b.len(),
{
    if b.len() == 0 {
        assert(a + b =~= a);
    } else {
        assert((a + b).drop_last() =~= a + b.drop_last());
        assert((a + b).last() == b.last());
        lemma_completions_append(a, b.drop_last(), n);
    }
}

proof fn lemma_step(s: SessionView, f: Frame, n: u32)
    requires
        s.well_formed(),
    ensures
        s.step(f).0.well_formed(),
        s.step(f).0.ids == s.ids,
        s.step(f).0.handlers == s.handlers,
        s.step(f).0.next_request == s.next_request,
        completions_for(s.step(f).1, n) + awaiting(s.step(f).0, n) == awaiting(s, n),
        !replies_to(f, n) ==> completions_for(s.step(f).1, n) == 0 && s.step(f).0.is_pending(n)
            == s.is_pending(n),
{
    let (t, ds) = s.step(f);
    reveal_with_fuel(completions_for, 2);
    match f {
        Frame::Reply { request_id, reply } => {
            if t != s {
                let i = s.pending_index(request_id);
                let p2 = s.pending.remove(i);
                assert(t.pending == p2);
                assert forall|a: int, b: int| 0 <= a < b < p2.len() implies p2[a].request_id
                    < p2[b].request_id by {
                    let a0 = if a < i { a } else { a + 1 };
                    let b0 = if b < i { b } else { b + 1 };
                    assert(p2[a] == s.pending[a0]);
                    assert(p2[b] == s.pending[b0]);
                }
                assert forall|a: int| 0 <= a < p2.len() implies p2[a].request_id
                    < s.next_request by {
                    let a0 = if a < i { a } else { a + 1 };
                    assert(p2[a] == s.pending[a0]);
                }
                if request_id == n {
                    assert(!t.is_pending(n)) by {
                        if t.is_pending(n) {
                            let a = choose|a: int|
                                0 <= a < p2.len() && p2[a].request_id == n;
                            let a0 = if a < i { a } else { a + 1 };
                            assert(p2[a] == s.pending[a0]);
                        }
                    }
                } else {
                    if s.is_pending(n) {
                        let a0 = choose|a: int|
                            0 <= a < s.pending.len() && s.pending[a].request_id == n;
                        let a = if a0 < i { a0 } else { a0 - 1 };
                        assert(a0 != i);
                        assert(p2[a] == s.pending[a0]);
                        assert(t.is_pending(n));
                    }
                    if t.is_pending(n) {
                        let a = choose|a: int| 0 <= a < p2.len() && p2[a].request_id == n;
                        let a0 = if a < i { a } else { a + 1 };
                        assert(p2[a] == s.pending[a0]);
                        assert(s.is_pending(n));
                    }
                }
            }
        },
        Frame::Event { device, event } => {},
    }
}

proof fn lemma_run(s: SessionView, fs: Seq<Frame>, n: u32)
    requires
        s.well_formed(),
    ensures
        s.run(fs).0.well_formed(),
        s.run(fs).0.ids == s.ids,
        s.run(fs).0.handlers == s.handlers,
        completions_for(s.run(fs).1, n) + awaiting(s.run(fs).0, n) == awaiting(s, n),
        (forall|k: int| 0 <= k < fs.len() ==> !replies_to(#[trigger] fs[k], n)) ==> (
        completions_for(s.run(fs).1, n) == 0 && s.run(fs).0.is_pending(n) == s.is_pending(n)),
    decreases fs.len(),
{
    if fs.len() == 0 {
        reveal_with_fuel(completions_for, 1);
    } else {
        let (s1, d1) = s.run(fs.drop_last());
        lemma_run(s, fs.drop_last(), n);
        lemma_step(s1, fs.last(), n);
        lemma_completions_append(d1, s1.step(fs.last()).1, n);
        if forall|k: int| 0 <= k < fs.len() ==> !replies_to(#[trigger] fs[k], n) {
            assert forall|k: int| 0 <= k < fs.drop_last().len() implies !replies_to(
                #[trigger] fs.drop_last()[k],
                n,
            ) by {
                assert(fs.drop_last()[k] == fs[k]);
            }
            assert(!replies_to(fs[fs.len() - 1], n));
        }
    }
}

/// Every command completes at most once: over any inbound frames, the
/// completions named for the command sent as `n`, plus one if it still awaits
/// its reply afterwards, equal one if it awaited its reply before and zero
/// otherwise. Frames that hold no reply to `n` name no completion of it and
/// leave it waiting.
pub proof fn lemma_completion_exactly_once(s: SessionView, fs: Seq<Frame>, n: u32)
    requires
        s.well_formed(),
    ensures
        completions_for(s.run(fs).1, n) + awaiting(s.run(fs).0, n) == awaiting(s, n),
        (forall|k: int| 0 <= k < fs.len() ==> !replies_to(#[trigger] fs[k], n)) ==> (
        completions_for(s.run(fs).1, n) == 0 && s.run(fs).0.is_pending(n) == s.is_pending(n)),
{
    lemma_run(s, fs, n);
}

/// Routing the frames of two deliveries one after the other gives the same
/// state, and the same callbacks in the same order, as routing them together.
pub proof fn lemma_run_concat(s: SessionView, a: Seq<Frame>, b: Seq<Frame>)
    ensures
        s.run(a + b).0 == s.run(a).0.run(b).0,
        s.run(a + b).1 == s.run(a).1 + s.run(a).0.run(b).1,
    decreases b.len(),
{
    if b.len() == 0 {
        assert(a + b =~= a);
        assert(s.run(a).1 + Seq::<Dispatch>::empty() =~= s.run(a).1);
    } else {
        assert((a + b).drop_last() =~= a + b.drop_last());
        assert((a + b).last() == b.last());
        lemma_run_concat(s, a, b.drop_last());
        let t = s.run(a).0;
        let (u, du) = t.run(b.drop_last());
        let (v, dv) = u.step(b.last());
        assert(s.run(a).1 + (du + dv) =~= s.run(a).1 + du + dv);
    }
}

/// A command that was issued awaits exactly one completion: over any inbound
/// frames routed afterwards, it is completed once, or it still waits and was
/// not completed; frames without a reply to it complete nothing of it; and a
/// reply of the awaited shape completes it with its own callback.
pub proof fn lemma_issued_command_completes_once(
    s: SessionView,
    post: SessionView,
    device: Seq<u8>,
    c: Command,
    callback: u64,
    expect: ReplyKind,
    r: Result<Outgoing, EncodeError>,
    fs: Seq<Frame>,
    reply: Reply,
)
    requires
        s.well_formed(),
        s.issues(post, device, c, callback, expect, r),
        r is Ok,
    ensures
        ({
            let n = r->Ok_0.request_id;
            &&& post.well_formed()
            &&& completions_for(post.run(fs).1, n) + awaiting(post.run(fs).0, n) == 1
            &&& (forall|k: int| 0 <= k < fs.len() ==> !replies_to(#[trigger] fs[k], n)) ==> (
            completions_for(post.run(fs).1, n) == 0 && post.run(fs).0.is_pending(n))
            &&& reply_fits(expect, reply) ==> post.step(
                Frame::Reply { request_id: n, reply },
            ).1 == seq![Dispatch::Completion { request_id: n, callback, reply }]
        }),
{
    let n = r->Ok_0.request_id;
    let last = s.pending.len() as int;
    assert(post.pending[last].request_id == n);
    assert(post.well_formed());
    assert(post.is_pending(n));
    assert(post.pending_index(n) == last) by {
        let j = post.pending_index(n);
        if j != last {
            assert(s.pending[j].request_id < s.next_request);
        }
    }
    lemma_run(post, fs, n);
}

/// After a handler `h` is registered for an event kind on a known device (or
/// cleared, when `h` is `None`), and whatever frames are routed after that,
/// an event of that kind for the device names `h` once, or nothing when cleared.
pub proof fn lemma_event_reaches_handler(
    s: SessionView,
    device: Seq<u8>,
    h: Option<u64>,
    e: Event,
    fs: Seq<Frame>,
)
    requires
        s.well_formed(),
        s.has_robot(device),
    ensures
        ({
            let s2 = SessionView {
                handlers: s.handlers.update(
                    s.robot_index(device),
                    with_handler(s.handlers_of(device), kind_of(e), h),
                ),
                ..s
            };
            let s3 = s2.run(fs).0;
            s3.step(Frame::Event { device, event: e }) == (s3, match h {
                Some(x) => seq![Dispatch::Notify { handler: x, event: e }],
                None => Seq::<Dispatch>::empty(),
            })
        }),
{
    let i = s.robot_index(device);
    let s2 = SessionView {
        handlers: s.handlers.update(i, with_handler(s.handlers_of(device), kind_of(e), h)),
        ..s
    };
    assert(s2.well_formed());
    lemma_run(s2, fs, 0);
    let s3 = s2.run(fs).0;
    assert(s3.has_robot(device));
    assert(s3.robot_index(device) == i) by {
        let j = s3.robot_index(device);
        if j != i {
            if j < i {
                assert(s.ids[j] != s.ids[i]);
            } else {
                assert(s.ids[i] != s.ids[j]);
            }
        }
    }
    assert(handler_for(s3.handlers_of(device), kind_of(e)) == h);
}

/// Requesting the same device twice leaves the session as the first request
/// left it: both handles name one shared device state.
pub proof fn lemma_get_robot_idempotent(s: SessionView, id: Seq<u8>)
    ensures
        s.with_robot(id).has_robot(id),
        s.with_robot(id).with_robot(id) == s.with_robot(id),
{
    if !s.has_robot(id) {
        let t = s.with_robot(id);
        assert(t.ids[s.ids.len() as int] == id);
    }
}

} // verus!
