//! The frame loop's decisions: what a frame calls, and when the loop ends.

use vstd::prelude::*;

verus! {

/// A call into the facade of the hosted application.
#[derive(Clone, Copy, Debug, PartialEq, Eq, Structural)]
pub enum FrameCall {
    /// One simulation step of one timestep.
    Update,
    /// One rendered frame.
    Draw,
    /// The end of the application.
    Shutdown,
}

/// The calls of one frame: as many updates as are due, then one draw,
/// whatever the number of updates, and a shutdown behind them where the loop
/// ends with this frame.
pub open spec fn frame_calls(updates: u32, should_exit: bool) -> Seq<FrameCall> {
    let frame = Seq::new(updates as nat, |i: int| FrameCall::Update).push(FrameCall::Draw);
    if should_exit {
        frame.push(FrameCall::Shutdown)
    } else {
        frame
    }
}

/// The calls that a frame makes, in their order.
pub fn frame_plan(updates: u32, should_exit: bool) -> (plan: Vec<FrameCall>)
    ensures
        plan@ == frame_calls(updates, should_exit),
        plan@.len() == updates + 1 + if should_exit {
            1int
        } else {
            0int
        },
        forall|i: int| 0 <= i < updates ==> plan@[i] == FrameCall::Update,
        plan@[updates as int] == FrameCall::Draw,
{
    let mut plan: Vec<FrameCall> = Vec::new();
    let mut n: u32 = 0;
    while n < updates
        invariant
            n <= updates,
            plan@ == Seq::new(n as nat, |i: int| FrameCall::Update),
        decreases updates - n,
    {
        plan.push(FrameCall::Update);
        n += 1;
        assert(plan@ =~= Seq::new(n as nat, |i: int| FrameCall::Update));
    }
    plan.push(FrameCall::Draw);
    if should_exit {
        plan.push(FrameCall::Shutdown);
    }
    plan
}

/// Whether the events of a frame ask the loop to end: one of them is of the
/// type that requests to quit.
pub fn quit_requested(event_types: &Vec<u32>, quit: u32) -> (requested: bool)
    ensures
        requested == event_types@.contains(quit),
{
    let mut i: usize = 0;
    while i < event_types.len()
        invariant
            i <= event_types@.len(),
            forall|k: int| 0 <= k < i ==> event_types@[k] != quit,
        decreases event_types@.len() - i,
    {
        if event_types[i] == quit {
            return true;
        }
        i += 1;
    }
    false
}

} // verus!
