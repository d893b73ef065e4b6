//! The steps that merge each launch of the application into the session.
//!
//! A launch builds its item list and announces it at once, then waits in the
//! background for a window, then hands the list to the user interface.
use vstd::prelude::*;
use crate::counters::{CounterOp, SharedCounters};
use crate::error::CommandError;

verus! {

/// What the user launched the application to do.
#[derive(Clone, Copy, Debug, PartialEq, Eq, Structural)]
pub enum LaunchIntent {
    Compress,
    Decompress,
}

/// What a waiting launch does after reading the window count.
#[derive(Clone, Copy, Debug, PartialEq, Eq, Structural)]
pub enum WindowWait {
    /// No window yet: read the count again after a short sleep.
    KeepPolling,
    /// The window is new: give it a moment to start, then deliver.
    SettleThenDeliver,
    /// Deliver now.
    Deliver,
}

/// Below this many windows a window counts as new.
pub const SETTLED_WINDOWS: usize = 4;

/// The arguments after the program and the reserved second entry.
pub open spec fn args_after_program(argv: Seq<String>) -> Seq<String> {
    if argv.len() <= 2 {
        Seq::empty()
    } else {
        argv.subrange(2, argv.len() as int)
    }
}

/// The items of one launch: those known beforehand, then those on its
/// command line.
pub open spec fn launch_item_list(baseline: Seq<String>, argv: Seq<String>) -> Seq<String> {
    baseline + args_after_program(argv)
}

pub fn launch_items(baseline: Vec<String>, argv: Vec<String>) -> (items: Vec<String>)
    ensures
        items@ == launch_item_list(baseline@, argv@),
{
    let mut items = baseline;
    let mut i: usize = 2;
    while i < argv.len()
        invariant
            2 <= i,
            i <= argv.len() || argv.len() < 2,
            argv.len() >= 2 ==> items@ == baseline@ + argv@.subrange(2, i as int),
            argv.len() < 2 ==> items@ == baseline@,
        decreases argv.len() - i,
    {
        items.push(argv[i].clone());
        i = i + 1;
    }
    proof {
        if argv.len() <= 2 {
            assert(args_after_program(argv@) =~= Seq::<String>::empty());
            assert(argv.len() == 2 ==> argv@.subrange(2, 2) =~= Seq::<String>::empty());
        }
    }
    items
}

/// The synchronous part of a launch: builds its item list and adds its
/// length to the expected total before any waiting starts.
pub fn begin_launch(counters: &mut SharedCounters, baseline: Vec<String>, argv: Vec<String>) -> (items:
    Vec<String>)
    requires
        old(counters).items_expected_total + launch_item_list(baseline@, argv@).len() <= usize::MAX,
    ensures
        items@ == launch_item_list(baseline@, argv@),
        final(counters)@ == old(counters)@.apply(CounterOp::Announce(items.len() as nat)),
{
    let items = launch_items(baseline, argv);
    counters.announce(items.len());
    items
}

/// What to do after reading `windows_created` while waiting to deliver.
pub fn window_wait(windows_created: usize) -> (r: WindowWait)
    ensures
        windows_created == 0 ==> r == WindowWait::KeepPolling,
        0 < windows_created < SETTLED_WINDOWS ==> r == WindowWait::SettleThenDeliver,
        windows_created >= SETTLED_WINDOWS ==> r == WindowWait::Deliver,
{
    if windows_created == 0 {
        WindowWait::KeepPolling
    } else if windows_created < SETTLED_WINDOWS {
        WindowWait::SettleThenDeliver
    } else {
        WindowWait::Deliver
    }
}

/// The mode to set in the user interface before the items arrive, if any.
pub fn mode_event(intent: LaunchIntent) -> (r: Option<String>)
    ensures
        intent == LaunchIntent::Compress ==> r is None,
        intent == LaunchIntent::Decompress ==> r is Some && r->0@ == "decompression"@,
{
    match intent {
        LaunchIntent::Compress => None,
        LaunchIntent::Decompress => Some(String::from_str("decompression")),
    }
}

/// The event that carries a launch's items.
pub fn items_event(intent: LaunchIntent) -> (r: String)
    ensures
        intent == LaunchIntent::Compress ==> r@ == "files-selected"@,
        intent == LaunchIntent::Decompress ==> r@ == "archives-selected"@,
{
    match intent {
        LaunchIntent::Compress => String::from_str("files-selected"),
        LaunchIntent::Decompress => String::from_str("archives-selected"),
    }
}

/// The last step of a launch. Items that reached the user interface count as
/// delivered; items whose event failed do not.
pub fn finish_launch(counters: &mut SharedCounters, items: &Vec<String>, emitted: bool) -> (r: Result<
    (),
    CommandError,
>)
    requires
        emitted ==> old(counters).items_delivered + items.len() <= usize::MAX,
    ensures
        emitted ==> r is Ok && final(counters)@ == old(counters)@.apply(
            CounterOp::Deliver(items.len() as nat),
        ),
        !emitted ==> r == Err::<(), CommandError>(CommandError::EventDeliveryFailed) && *final(counters)
            == *old(counters),
{
    if emitted {
        counters.record_delivery(items.len());
        Ok(())
    } else {
        Err(CommandError::EventDeliveryFailed)
    }
}

} // verus!
