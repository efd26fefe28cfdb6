//! Selection of the windows that are offered as targets.

use vstd::prelude::*;
use vstd::string::StringExecFns;

use crate::injection::TargetWindow;

verus! {

/// Create a target window from its fields; it has no icon yet.
pub fn map_to_target_window(
    window_id: &str,
    title: &str,
    app_name: &str,
    process_id: u32,
) -> (window: TargetWindow)
    ensures
        window.window_id@ == window_id@,
        window.title@ == title@,
        window.app_name@ == app_name@,
        window.process_id == process_id,
        window.icon is None,
{
    TargetWindow {
        window_id: String::from_str(window_id),
        title: String::from_str(title),
        app_name: String::from_str(app_name),
        process_id,
        icon: None,
    }
}

/// The first `n` windows without those of process `own_pid`, in order.
pub open spec fn windows_of_others(windows: Seq<TargetWindow>, own_pid: u32, n: int) -> Seq<
    TargetWindow,
>
    decreases n,
{
    if n <= 0 {
        Seq::empty()
    } else if windows[n - 1].process_id == own_pid {
        windows_of_others(windows, own_pid, n - 1)
    } else {
        windows_of_others(windows, own_pid, n - 1).push(windows[n - 1])
    }
}

/// None of the windows that the filter keeps is our own, and every window
/// of another process is kept.
pub proof fn lemma_others_are_exactly_the_foreign(
    windows: Seq<TargetWindow>,
    own_pid: u32,
    n: int,
)
    requires
        0 <= n <= windows.len(),
    ensures
        forall|k: int|
            0 <= k < windows_of_others(windows, own_pid, n).len() ==> (#[trigger] windows_of_others(
                windows,
                own_pid,
                n,
            )[k]).process_id != own_pid,
        forall|i: int|
            0 <= i < n && (#[trigger] windows[i]).process_id != own_pid ==> windows_of_others(
                windows,
                own_pid,
                n,
            ).contains(windows[i]),
    decreases n,
{
    if n > 0 {
        lemma_others_are_exactly_the_foreign(windows, own_pid, n - 1);
        let before = windows_of_others(windows, own_pid, n - 1);
        let after = windows_of_others(windows, own_pid, n);
        assert forall|i: int|
            0 <= i < n && (#[trigger] windows[i]).process_id != own_pid implies after.contains(
            windows[i],
        ) by {
            if i < n - 1 {
                let k = choose|k: int| 0 <= k < before.len() && before[k] == windows[i];
                assert(after[k] == windows[i]);
            } else {
                assert(after[after.len() - 1] == windows[i]);
            }
        }
    }
}

/// Filter out the windows that belong to our own process.
pub fn filter_own_windows(windows: Vec<TargetWindow>, own_pid: u32) -> (others: Vec<TargetWindow>)
    ensures
        others@ == windows_of_others(windows@, own_pid, windows@.len() as int),
{
    let ghost all = windows@;
    let mut others: Vec<TargetWindow> = Vec::new();
    for window in it: windows.into_iter()
        invariant
            it.seq() == all,
            others@ == windows_of_others(all, own_pid, it.index() as int),
    {
        if window.process_id != own_pid {
            others.push(window);
        }
    }
    others
}

/// Window `i` is offered as a target: it belongs to another process, and no
/// earlier window of another process belongs to the same application.
pub open spec fn is_offered(windows: Seq<TargetWindow>, own_pid: u32, i: int) -> bool {
    &&& windows[i].process_id != own_pid
    &&& forall|j: int|
        0 <= j < i && windows[j].process_id != own_pid ==> (#[trigger] windows[j]).app_name@
            != windows[i].app_name@
}

/// The windows among the first `n` that are offered as targets, in order.
pub open spec fn offered_windows(windows: Seq<TargetWindow>, own_pid: u32, n: int) -> Seq<
    TargetWindow,
>
    decreases n,
{
    if n <= 0 {
        Seq::empty()
    } else if is_offered(windows, own_pid, n - 1) {
        offered_windows(windows, own_pid, n - 1).push(windows[n - 1])
    } else {
        offered_windows(windows, own_pid, n - 1)
    }
}

/// Some window in `offered` belongs to the application `app_name`.
spec fn shows_app(offered: Seq<TargetWindow>, app_name: Seq<char>) -> bool {
    exists|k: int| 0 <= k < offered.len() && (#[trigger] offered[k]).app_name@ == app_name
}

/// `window` is one of the first `n` windows and belongs to another process.
spec fn is_foreign_among(
    windows: Seq<TargetWindow>,
    own_pid: u32,
    n: int,
    window: TargetWindow,
) -> bool {
    exists|j: int|
        0 <= j < n && (#[trigger] windows[j]).process_id != own_pid && windows[j] == window
}

/// Choose the windows that are offered as targets among the open ones: one
/// per application, the first that the system lists, and none of our own.
pub fn offer_windows(windows: Vec<TargetWindow>, own_pid: u32) -> (offered: Vec<TargetWindow>)
    ensures
        offered@ == offered_windows(windows@, own_pid, windows@.len() as int),
{
    let ghost all = windows@;
    let mut offered: Vec<TargetWindow> = Vec::new();
    for window in it: windows.into_iter()
        invariant
            it.seq() == all,
            offered@ == offered_windows(all, own_pid, it.index() as int),
            forall|j: int|
                0 <= j < it.index() && (#[trigger] all[j]).process_id != own_pid ==> shows_app(
                    offered@,
                    all[j].app_name@,
                ),
            forall|k: int|
                0 <= k < offered@.len() ==> is_foreign_among(
                    all,
                    own_pid,
                    it.index() as int,
                    #[trigger] offered@[k],
                ),
    {
        let ghost i = it.index() as int;
        let ghost before = offered@;
        if window.process_id != own_pid {
            let mut seen = false;
            let mut k: usize = 0;
            while k < offered.len()
                invariant
                    k <= offered@.len(),
                    seen <==> exists|m: int|
                        0 <= m < k && (#[trigger] offered@[m]).app_name@ == window.app_name@,
                decreases offered@.len() - k,
            {
                if offered[k].app_name == window.app_name {
                    seen = true;
                }
                k += 1;
            }
            assert(window == all[i]);
            assert(seen <==> shows_app(before, window.app_name@));
            proof {
                if seen {
                    let m = choose|m: int|
                        0 <= m < before.len() && (#[trigger] before[m]).app_name@
                            == window.app_name@;
                    assert(is_foreign_among(all, own_pid, i, before[m]));
                    assert(!is_offered(all, own_pid, i));
                } else {
                    assert forall|j: int|
                        0 <= j < i && all[j].process_id != own_pid implies (#[trigger] all[j]).app_name@
                        != all[i].app_name@ by {
                        assert(shows_app(before, all[j].app_name@));
                    }
                }
            }
            if !seen {
                offered.push(window);
            }
        }
        proof {
            assert(forall|m: int| 0 <= m < before.len() ==> offered@[m] == before[m]);
            assert forall|j: int|
                0 <= j < i + 1 && (#[trigger] all[j]).process_id != own_pid implies shows_app(
                offered@,
                all[j].app_name@,
            ) by {
                if shows_app(before, all[j].app_name@) {
                    let m = choose|m: int|
                        0 <= m < before.len() && (#[trigger] before[m]).app_name@
                            == all[j].app_name@;
                    assert(offered@[m].app_name@ == all[j].app_name@);
                } else {
                    assert(j == i);
                    assert(offered@[before.len() as int].app_name@ == all[j].app_name@);
                }
            }
            assert forall|m: int| 0 <= m < offered@.len() implies is_foreign_among(
                all,
                own_pid,
                i + 1,
                #[trigger] offered@[m],
            ) by {
                if m < before.len() {
                    assert(is_foreign_among(all, own_pid, i, before[m]));
                } else {
                    assert(all[i] == offered@[m]);
                }
            }
        }
    }
    offered
}

} // verus!
