//! The decisions of the watch of the window in front, which activates profiles by themselves.
use vstd::prelude::*;

verus! {

/// What the watch decides when it looks again, given the window it last saw a profile for and
/// the window in front with the profile that matches it, if one does: the window it now
/// remembers, and the change of profile to make (a profile, or none), if any.
///
/// A profile is activated when its window comes in front; when no window of a profile is in
/// front any more, the profile is left once.
pub open spec fn profile_change(last_window: Option<isize>, found: Option<(isize, Seq<char>)>) -> (
    Option<isize>,
    Option<Option<Seq<char>>>,
) {
    match found {
        Some((window, name)) => (
            Some(window),
            if last_window != Some(window) {
                Some(Some(name))
            } else {
                None
            },
        ),
        None => match last_window {
            Some(_) => (None, Some(None)),
            None => (None, None),
        },
    }
}

/// Decides what to do after a look at the window in front; see [`profile_change`].
pub fn detect_profile_change(last_window: &mut Option<isize>, found: Option<(isize, String)>) -> (r:
    Option<Option<String>>)
    ensures
        ({
            let expected = profile_change(
                *old(last_window),
                match found {
                    Some((w, n)) => Some((w, n@)),
                    None => None,
                },
            );
            &&& *final(last_window) == expected.0
            &&& match r {
                Some(Some(n)) => expected.1 == Some(Some(n@)),
                Some(None) => expected.1 == Some(None::<Seq<char>>),
                None => expected.1 is None,
            }
        }),
{
    match found {
        Some((window, name)) => {
            let is_new = match *last_window {
                Some(prev) => prev != window,
                None => true,
            };
            *last_window = Some(window);
            if is_new {
                Some(Some(name))
            } else {
                None
            }
        },
        None => {
            if last_window.is_some() {
                *last_window = None;
                Some(None)
            } else {
                None
            }
        },
    }
}

/// One look of the watch of a single activation rule, given the window it last saw matching
/// and the window in front if it matches: the window it now remembers, and the window to report
/// with whether it became active (`true`) or stopped being so (`false`), if any.
pub open spec fn watch_step(last_window: Option<isize>, found: Option<isize>) -> (
    Option<isize>,
    Option<(isize, bool)>,
) {
    match found {
        Some(window) => (
            Some(window),
            if last_window != Some(window) {
                Some((window, true))
            } else {
                None
            },
        ),
        None => match last_window {
            Some(prev) => (None, Some((prev, false))),
            None => (None, None),
        },
    }
}

/// Decides what to report after one look of the watch; see [`watch_step`].
pub fn watch_window(last_window: &mut Option<isize>, found: Option<isize>) -> (r: Option<(isize, bool)>)
    ensures
        *final(last_window) == watch_step(*old(last_window), found).0,
        r == watch_step(*old(last_window), found).1,
{
    match found {
        Some(window) => {
            let is_new = match *last_window {
                Some(prev) => prev != window,
                None => true,
            };
            *last_window = Some(window);
            if is_new {
                Some((window, true))
            } else {
                None
            }
        },
        None => match *last_window {
            Some(prev) => {
                *last_window = None;
                Some((prev, false))
            },
            None => None,
        },
    }
}

/// The watch run over the successive looks at the window in front, from a start with no
/// window seen: the window it remembers at the end, and what it reports at each look.
pub open spec fn watch_run(samples: Seq<Option<isize>>) -> (Option<isize>, Seq<Option<(isize, bool)>>)
    decreases samples.len(),
{
    if samples.len() == 0 {
        (None, Seq::empty())
    } else {
        let before = watch_run(samples.drop_last());
        let step = watch_step(before.0, samples.last());
        (step.0, before.1.push(step.1))
    }
}

/// Across successive looks at the window in front (each the window if it matches, else none),
/// from a start with no window seen, the watch reports at each look a window that matches as
/// active when it was not the matching window of the look before, and the window of the look
/// before as inactive when no window matches now; it reports nothing else. At the end it
/// remembers the last look.
pub proof fn law_watch_reports(samples: Seq<Option<isize>>)
    ensures
        watch_run(samples).1.len() == samples.len(),
        watch_run(samples).0 == (if samples.len() == 0 {
            None::<isize>
        } else {
            samples.last()
        }),
        forall|k: int, w: isize|
            0 <= k < samples.len() ==> (watch_run(samples).1[k] == Some((w, true)) <==> (
            samples[k] == Some(w) && (if k == 0 {
                None::<isize>
            } else {
                samples[k - 1]
            }) != Some(w))),
        forall|k: int, w: isize|
            0 <= k < samples.len() ==> (watch_run(samples).1[k] == Some((w, false)) <==> (
            samples[k] is None && (if k == 0 {
                None::<isize>
            } else {
                samples[k - 1]
            }) == Some(w))),
    decreases samples.len(),
{
    if samples.len() > 0 {
        let front = samples.drop_last();
        law_watch_reports(front);
    }
}

} // verus!
