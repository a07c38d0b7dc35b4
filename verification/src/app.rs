//! The dashboard's view-state: the service registry, the current selection
//! and the rolling CPU history, with the navigation rules of the control
//! loop.

use vstd::prelude::*;
use crate::models::Service;

verus! {

/// The CPU history is a bounded sliding window of this many samples.
pub const CPU_HISTORY_LEN: usize = 40;

/// Index selected after one `next` step from index `i` in a list of
/// length `len`, wrapping at the end. For an empty list the index is kept.
pub open spec fn next_index(i: int, len: int) -> int {
    if len <= 0 {
        i
    } else if i + 1 < len {
        i + 1
    } else {
        0
    }
}

/// Index selected after one `previous` step from index `i` in a list of
/// length `len`, wrapping at the start. For an empty list the index is kept.
pub open spec fn prev_index(i: int, len: int) -> int {
    if len <= 0 {
        i
    } else if i > 0 {
        i - 1
    } else {
        len - 1
    }
}

/// Index reached after `n` `next` steps from index `i`.
pub open spec fn next_index_n(i: int, len: int, n: nat) -> int
    decreases n,
{
    if n == 0 {
        i
    } else {
        next_index(next_index_n(i, len, (n - 1) as nat), len)
    }
}

/// The CPU history after one sample `u` is pushed onto history `h`: the
/// sample goes to the back, and if the window would overflow its bound the
/// oldest sample is evicted from the front.
pub open spec fn tick_history(h: Seq<u64>, u: u64) -> Seq<u64> {
    let pushed = h.push(u);
    if pushed.len() > CPU_HISTORY_LEN {
        pushed.skip(1)
    } else {
        pushed
    }
}

/// In a non-empty list the selection always stays in bounds; the CPU
/// history never exceeds its bound.
pub open spec fn app_wf(app: App) -> bool {
    &&& (app.services.len() > 0 ==> app.selected_index < app.services.len())
    &&& (app.services.len() == 0 ==> app.selected_index == 0)
    &&& app.cpu_history.len() <= CPU_HISTORY_LEN
}

/// The whole view-state of the dashboard: the ordered service list with
/// runtime state, the index of the selected service, the title shown by the
/// renderer, and the rolling CPU history.
pub struct App {
    pub services: Vec<Service>,
    pub selected_index: usize,
    pub title: String,
    pub cpu_history: Vec<u64>,
}

impl App {
    /// Seed the registry with the discovered services; selection starts at
    /// the top and the CPU window starts filled with zero samples.
    pub fn new(services: Vec<Service>) -> (r: App)
        ensures
            app_wf(r),
            r.services == services,
            r.selected_index == 0,
            r.title@ == "DevRunner"@,
            r.cpu_history@ == Seq::new(CPU_HISTORY_LEN as nat, |i: int| 0u64),
    {
        let mut cpu_history: Vec<u64> = Vec::new();
        let mut i: usize = 0;
        while i < CPU_HISTORY_LEN
            invariant
                i <= CPU_HISTORY_LEN,
                cpu_history@ =~= Seq::new(i as nat, |j: int| 0u64),
            decreases CPU_HISTORY_LEN - i,
        {
            cpu_history.push(0);
            i = i + 1;
        }
        proof {
            assert(cpu_history@ =~= Seq::new(CPU_HISTORY_LEN as nat, |i: int| 0u64));
        }
        App { services, selected_index: 0, title: "DevRunner".to_owned(), cpu_history }
    }

    /// Move the selection one service down, wrapping to the top past the
    /// last one; with no services the selection is untouched.
    pub fn next(&mut self)
        requires
            app_wf(*old(self)),
        ensures
            app_wf(*final(self)),
            final(self).selected_index == next_index(
                old(self).selected_index as int,
                old(self).services.len() as int,
            ),
            final(self).services == old(self).services,
            final(self).title == old(self).title,
            final(self).cpu_history == old(self).cpu_history,
    {
        if self.services.len() > 0 {
            if self.selected_index + 1 < self.services.len() {
                self.selected_index = self.selected_index + 1;
            } else {
                self.selected_index = 0;
            }
        }
    }

    /// Move the selection one service up, wrapping to the bottom past the
    /// first one; with no services the selection is untouched.
    pub fn previous(&mut self)
        requires
            app_wf(*old(self)),
        ensures
            app_wf(*final(self)),
            final(self).selected_index == prev_index(
                old(self).selected_index as int,
                old(self).services.len() as int,
            ),
            final(self).services == old(self).services,
            final(self).title == old(self).title,
            final(self).cpu_history == old(self).cpu_history,
    {
        if self.services.len() > 0 {
            if self.selected_index > 0 {
                self.selected_index = self.selected_index - 1;
            } else {
                self.selected_index = self.services.len() - 1;
            }
        }
    }

    /// Record one fresh CPU sample in the rolling history: the sample is
    /// appended and, when the window is full, the oldest sample is evicted.
    pub fn on_tick(&mut self, usage: u64)
        ensures
            final(self).cpu_history@ == tick_history(old(self).cpu_history@, usage),
            old(self).cpu_history.len() <= CPU_HISTORY_LEN ==> final(self).cpu_history.len()
                <= CPU_HISTORY_LEN,
            final(self).services == old(self).services,
            final(self).selected_index == old(self).selected_index,
            final(self).title == old(self).title,
    {
        self.cpu_history.push(usage);
        if self.cpu_history.len() > CPU_HISTORY_LEN {
            self.cpu_history.remove(0);
            proof {
                assert(self.cpu_history@ =~= tick_history(old(self).cpu_history@, usage));
            }
        }
    }
}

/// After `n` `next` steps from a valid index the selection sits exactly
/// `n` places further down, modulo wrapping once past the end.
proof fn lemma_next_index_n_shift(i: int, len: int, n: nat)
    requires
        len > 0,
        0 <= i < len,
        n <= len,
    ensures
        next_index_n(i, len, n) == if i + n < len {
            i + n
        } else {
            i + n - len
        },
    decreases n,
{
    if n > 0 {
        lemma_next_index_n_shift(i, len, (n - 1) as nat);
    }
}

/// Wrap-around closure of `next`: in a non-empty list, taking exactly as
/// many `next` steps as there are services returns the selection to where
/// it started.
pub proof fn lemma_next_wraps_around(i: int, len: int)
    requires
        len > 0,
        0 <= i < len,
    ensures
        next_index_n(i, len, len as nat) == i,
{
    lemma_next_index_n_shift(i, len, len as nat);
}

/// In a list of exactly one service, `next` and `previous` are both
/// no-ops on the selection index.
pub proof fn lemma_single_service_navigation(i: int)
    requires
        i == 0,
    ensures
        next_index(i, 1) == i,
        prev_index(i, 1) == i,
{
}

/// FIFO eviction of the CPU window: one tick never grows the history past
/// its bound, and the new window is exactly the newest samples of the old
/// history followed by the fresh sample.
pub proof fn lemma_cpu_history_bounded(h: Seq<u64>, u: u64)
    requires
        h.len() <= CPU_HISTORY_LEN,
    ensures
        tick_history(h, u).len() <= CPU_HISTORY_LEN,
        h.len() < CPU_HISTORY_LEN ==> tick_history(h, u) == h.push(u),
        h.len() == CPU_HISTORY_LEN ==> tick_history(h, u) == h.skip(1).push(u),
{
    if h.len() == CPU_HISTORY_LEN {
        assert(tick_history(h, u) =~= h.skip(1).push(u));
    }
}

} // verus!
