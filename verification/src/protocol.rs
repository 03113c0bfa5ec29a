use vstd::prelude::*;
use crate::logger::Logger;
use crate::packet::{decode_model, view_opt, Boundary, PacketModel, PacketView, SafePacket};

verus! {

/// How a loaded module is driven: a direct call that returns the result
/// handle, or a callback-driven run whose result arrives on a module thread.
#[derive(Debug)]
pub enum PluginMode {
    Sync,
    Async,
}

/// How many times the polling wait reads the completion slot before giving up.
pub const POLL_ATTEMPTS: u32 = 50;

/// How long the polling wait sleeps before each read, in milliseconds.
pub const POLL_INTERVAL_MS: u64 = 100;

/// Decodes a handle the module side handed back (a sync return value or a
/// callback delivery) and reclaims its allocation, whatever the decode
/// yielded, so a failed decode leaks nothing. A null delivery is decoded to
/// no value and reclaims nothing.
fn finish_delivery(b: &mut Boundary, h: usize) -> (r: Option<SafePacket>)
    requires
        h == 0 || old(b).live().dom().contains(h as int),
    ensures
        view_opt(r) == decode_model(old(b).lookup(h as int)),
        final(b).live() == old(b).live().remove(h as int),
{
    let r = b.decode(h);
    if r.is_none() {
        Logger::warn("module delivered a null or incomplete result packet");
    }
    b.release(h);
    r
}

/// Completes a synchronous run: decodes the handle the module returned, then
/// reclaims both the input allocation and the result allocation — exactly two
/// releases per invocation, whether or not the decode yielded a value.
pub fn complete_sync(b: &mut Boundary, input: usize, output: usize) -> (r: Option<SafePacket>)
    requires
        old(b).live().dom().contains(input as int),
        output == 0 || old(b).live().dom().contains(output as int),
        input != output,
    ensures
        view_opt(r) == decode_model(old(b).lookup(output as int)),
        final(b).live() == old(b).live().remove(input as int).remove(output as int),
{
    let r = finish_delivery(b, output);
    b.release(input);
    proof {
        assert(b.live() =~= old(b).live().remove(input as int).remove(output as int));
    }
    r
}

/// What one turn of the polling wait has left: how many reads of the
/// completion slot remain before the wait gives up.
#[derive(Debug, Clone, Copy)]
pub struct PollState {
    pub remaining: u32,
}

impl PollState {
    /// The state the polling wait starts from: the full read budget.
    pub fn start() -> (st: PollState)
        ensures
            st.remaining == POLL_ATTEMPTS,
    {
        PollState { remaining: POLL_ATTEMPTS }
    }
}

/// What one read of the completion slot observed: nothing yet, or the handle
/// the module's callback delivered (possibly the null handle).
#[derive(Debug, Clone, Copy)]
pub enum PollEvent {
    Empty,
    Delivered(usize),
}

/// What the polling protocol decides after a read: keep waiting with a
/// smaller budget, give up on the window's last empty read, or finish with
/// the decoded result.
#[derive(Debug)]
pub enum PollDecision {
    Wait(PollState),
    GiveUp,
    Finish(Option<SafePacket>),
}

/// One turn of the polling wait. An empty read spends one unit of the budget
/// and gives up when it was the last; a delivery is decoded and its
/// allocation reclaimed, ending the wait at once. The ledger is untouched by
/// empty reads.
pub fn poll_step(b: &mut Boundary, st: PollState, ev: PollEvent) -> (r: PollDecision)
    requires
        st.remaining >= 1,
        (ev matches PollEvent::Delivered(h) ==> h == 0 || old(b).live().dom().contains(h as int)),
    ensures
        (ev is Empty && st.remaining > 1 ==> (r matches PollDecision::Wait(next)
            && next.remaining == st.remaining - 1 && final(b).live() == old(b).live())),
        (ev is Empty && st.remaining <= 1 ==> r is GiveUp && final(b).live() == old(b).live()),
        (ev matches PollEvent::Delivered(h) ==> (r matches PollDecision::Finish(res)
            && view_opt(res) == decode_model(old(b).lookup(h as int))
            && final(b).live() == old(b).live().remove(h as int))),
{
    match ev {
        PollEvent::Empty => {
            if st.remaining > 1 {
                PollDecision::Wait(PollState { remaining: st.remaining - 1 })
            } else {
                Logger::warn("asynchronous response timed out");
                PollDecision::GiveUp
            }
        },
        PollEvent::Delivered(h) => PollDecision::Finish(finish_delivery(b, h)),
    }
}

/// What the one-shot completion wait observed: the channel closed with no
/// delivery (the module never called back), or the delivered handle.
#[derive(Debug, Clone, Copy)]
pub enum ChannelEvent {
    Closed,
    Delivered(usize),
}

/// Completes a channel-driven asynchronous run. A closed channel yields no
/// value and touches nothing; a delivered handle is decoded and its
/// allocation reclaimed — exactly one release of the delivered handle.
pub fn complete_channel(b: &mut Boundary, ev: ChannelEvent) -> (r: Option<SafePacket>)
    requires
        (ev matches ChannelEvent::Delivered(h) ==> h == 0 || old(b).live().dom().contains(
            h as int,
        )),
    ensures
        (ev is Closed ==> r is None && final(b).live() == old(b).live()),
        (ev matches ChannelEvent::Delivered(h) ==> (view_opt(r) == decode_model(
            old(b).lookup(h as int),
        ) && final(b).live() == old(b).live().remove(h as int))),
{
    match ev {
        ChannelEvent::Closed => {
            Logger::warn("module never invoked the completion callback");
            None
        },
        ChannelEvent::Delivered(h) => finish_delivery(b, h),
    }
}

/// Echo law: a synchronous run against a module whose result record equals
/// the record that was materialized for its input — both fields present and
/// unchanged — yields an owned packet equal to the input's fields; what
/// [`complete_sync`] returns for that result handle is exactly the input.
pub proof fn lemma_sync_echo(b: Boundary, input: int, output: int, id: Seq<char>, data: Seq<char>)
    requires
        b.live().dom().contains(input),
        b.live()[input] == (PacketModel { id: Option::Some(id), data: Option::Some(data) }),
        b.live().dom().contains(output),
        b.live()[output] == b.live()[input],
    ensures
        decode_model(b.lookup(output)) == Option::Some((PacketView { id: id, data: data })),
        decode_model(b.lookup(output)) == decode_model(b.lookup(input)),
{
}

/// The verdict the polling wait has reached after a run of empty reads:
/// still waiting with some budget left, or given up.
pub ghost enum PollVerdict {
    Waiting(int),
    GaveUp,
}

/// The verdict after the completion slot has been read empty `polls` times in
/// a row, starting with `remaining` reads left in the budget. Mirrors the
/// empty-read turns of [`poll_step`].
pub open spec fn empty_poll_verdict(remaining: int, polls: int) -> PollVerdict
    decreases polls,
{
    if polls <= 0 {
        PollVerdict::Waiting(remaining)
    } else if remaining <= 1 {
        PollVerdict::GaveUp
    } else {
        empty_poll_verdict(remaining - 1, polls - 1)
    }
}

proof fn lemma_empty_poll_verdict(remaining: int, polls: int)
    requires
        1 <= remaining,
        0 <= polls,
    ensures
        polls < remaining ==> empty_poll_verdict(remaining, polls) == PollVerdict::Waiting(
            remaining - polls,
        ),
        polls >= remaining ==> empty_poll_verdict(remaining, polls) == PollVerdict::GaveUp,
    decreases polls,
{
    if polls > 0 && remaining > 1 {
        lemma_empty_poll_verdict(remaining - 1, polls - 1);
    }
}

/// Timeout law: against a module that never invokes the callback, the polling
/// wait is still waiting after every shorter run of empty reads and gives up
/// after exactly the configured number of them, so the result becomes
/// available only at the close of the full window — its length in
/// milliseconds is the attempt count times the sleep interval.
pub proof fn lemma_poll_timeout_window(polls: int)
    requires
        0 <= polls,
    ensures
        polls < POLL_ATTEMPTS ==> empty_poll_verdict(POLL_ATTEMPTS as int, polls)
            == PollVerdict::Waiting(POLL_ATTEMPTS - polls),
        polls >= POLL_ATTEMPTS ==> empty_poll_verdict(POLL_ATTEMPTS as int, polls)
            == PollVerdict::GaveUp,
        (POLL_ATTEMPTS as int) * (POLL_INTERVAL_MS as int) == 5000,
{
    lemma_empty_poll_verdict(POLL_ATTEMPTS as int, polls);
}

} // verus!
