//! Pull-based scan of one backlog: the backlog is asked for window by window,
//! the tasks of each page are buffered and handed out one at a time, and the
//! scan ends with the first page that is not full.

use vstd::prelude::*;
use std::collections::VecDeque;
use std::ops::Range;
use crate::types::BlockchainServiceTask;

verus! {

/// Number of backlog indices that one query asks for.
pub const PENDING_RANGE_LENGTH: usize = 16;

/// What a query's answer adds to the buffer: the tasks of a page, or nothing
/// where the query failed.
pub open spec fn page_items(page: Result<Vec<BlockchainServiceTask>, String>) -> Seq<
    BlockchainServiceTask,
> {
    match page {
        Ok(tasks) => tasks@,
        Err(_) => Seq::empty(),
    }
}

/// The `n`-th element of `tasks`, if there is one.
pub open spec fn element(tasks: Seq<BlockchainServiceTask>, n: nat) -> Option<
    BlockchainServiceTask,
> {
    if n < tasks.len() {
        Some(tasks[n as int])
    } else {
        None
    }
}

/// Mathematical state of a scan: the tasks fetched and not yet handed out,
/// oldest first, and the half-open range of indices not yet asked for.
pub struct PagerView {
    pub pending: Seq<BlockchainServiceTask>,
    pub start: nat,
    pub end: nat,
}

impl PagerView {
    /// The unexplored range is a range of machine indices.
    pub open spec fn wf(self) -> bool {
        self.start <= self.end <= usize::MAX
    }

    /// The state that every scan starts in: nothing buffered, nothing asked.
    pub open spec fn fresh() -> PagerView {
        PagerView { pending: Seq::empty(), start: 0, end: usize::MAX as nat }
    }

    /// No index is left to ask for.
    pub open spec fn is_exhausted(self) -> bool {
        self.start == self.end
    }

    /// The next call of `next` has to query the backlog.
    pub open spec fn needs_page(self) -> bool {
        self.pending.len() == 0 && !self.is_exhausted()
    }

    /// End of the next window: a full window's length after its start, or the
    /// end of the unexplored range where that comes first.
    pub open spec fn window_end(self) -> nat {
        if self.end - self.start < PENDING_RANGE_LENGTH {
            self.end
        } else {
            (self.start + PENDING_RANGE_LENGTH) as nat
        }
    }

    /// The next window as the range that is handed to the query.
    pub open spec fn window(self) -> Range<usize> {
        Range { start: self.start as usize, end: self.window_end() as usize }
    }

    /// The state once the tasks of a page have arrived. A full page moves the
    /// unexplored range past the window; any other page empties it.
    pub open spec fn accept(self, items: Seq<BlockchainServiceTask>) -> PagerView {
        PagerView {
            pending: self.pending + items,
            start: if items.len() == PENDING_RANGE_LENGTH {
                self.window_end()
            } else {
                self.end
            },
            end: self.end,
        }
    }

    /// The state once the oldest buffered task has been handed out.
    pub open spec fn pop(self) -> PagerView {
        PagerView {
            pending: self.pending.subrange(1, self.pending.len() as int),
            start: self.start,
            end: self.end,
        }
    }

    /// One call of `next`: the state it leaves and the task it hands out,
    /// where `items` is what the query answers if it is asked.
    pub open spec fn next(self, items: Seq<BlockchainServiceTask>) -> (
        PagerView,
        Option<BlockchainServiceTask>,
    ) {
        if self.pending.len() > 0 {
            (self.pop(), Some(self.pending[0]))
        } else if self.is_exhausted() {
            (self, None)
        } else if items.len() > 0 {
            (self.accept(items).pop(), Some(items[0]))
        } else {
            (self.accept(items), None)
        }
    }

    /// One call of `next` in a run in which `asked` queries have been made
    /// and the query number `q` is answered by `answers(q)`.
    pub open spec fn step(
        self,
        asked: nat,
        answers: spec_fn(nat) -> Seq<BlockchainServiceTask>,
    ) -> (PagerView, nat, Option<BlockchainServiceTask>) {
        if self.needs_page() {
            (self.next(answers(asked)).0, asked + 1, self.next(answers(asked)).1)
        } else {
            (self.next(Seq::empty()).0, asked, self.next(Seq::empty()).1)
        }
    }

    /// State and number of queries made after `n` calls of `next`.
    pub open spec fn run(
        self,
        asked: nat,
        answers: spec_fn(nat) -> Seq<BlockchainServiceTask>,
        n: nat,
    ) -> (PagerView, nat)
        decreases n,
    {
        if n == 0 {
            (self, asked)
        } else {
            let before = self.run(asked, answers, (n - 1) as nat);
            let after = before.0.step(before.1, answers);
            (after.0, after.1)
        }
    }

    /// What call number `n` of `next` hands out, counting from zero.
    pub open spec fn nth(
        self,
        asked: nat,
        answers: spec_fn(nat) -> Seq<BlockchainServiceTask>,
        n: nat,
    ) -> Option<BlockchainServiceTask> {
        let before = self.run(asked, answers, n);
        before.0.step(before.1, answers).2
    }
}

/// The answers number `from` to `last`, one after the other.
pub open spec fn pages(
    answers: spec_fn(nat) -> Seq<BlockchainServiceTask>,
    from: nat,
    last: nat,
) -> Seq<BlockchainServiceTask>
    decreases last + 1 - from,
{
    if from > last {
        Seq::empty()
    } else {
        answers(from) + pages(answers, from + 1, last)
    }
}

/// The answers up to number `last` are full pages, and that one is not.
pub open spec fn ends_with_page(
    answers: spec_fn(nat) -> Seq<BlockchainServiceTask>,
    last: nat,
) -> bool {
    &&& forall|q: nat| q < last ==> (#[trigger] answers(q)).len() == PENDING_RANGE_LENGTH
    &&& answers(last).len() < PENDING_RANGE_LENGTH
}

/// Scan of one backlog. Tasks come out in the order in which their pages
/// arrived, and within a page in the page's order.
pub struct PendingTasksIterator {
    pending: VecDeque<BlockchainServiceTask>,
    range: Range<usize>,
}

impl View for PendingTasksIterator {
    type V = PagerView;

    closed spec fn view(&self) -> PagerView {
        PagerView {
            pending: self.pending@,
            start: self.range.start as nat,
            end: self.range.end as nat,
        }
    }
}

impl PendingTasksIterator {
    /// A scan that has asked for nothing yet.
    pub fn new() -> (pager: Self)
        ensures
            pager@ == PagerView::fresh(),
    {
        PendingTasksIterator { pending: VecDeque::new(), range: 0..usize::MAX }
    }

    /// The window that the next query asks for.
    pub fn next_range(&self) -> (window: Range<usize>)
        requires
            self@.wf(),
        ensures
            window == self@.window(),
    {
        let next_range_start = if self.range.end - self.range.start < PENDING_RANGE_LENGTH {
            self.range.end
        } else {
            self.range.start + PENDING_RANGE_LENGTH
        };
        self.range.start..next_range_start
    }

    /// Takes in the answer to the query for the next window. The tasks of a
    /// page join the buffer; a failed query counts as a page without tasks.
    /// Only a full page keeps the scan going.
    pub fn accept_page(&mut self, page: Result<Vec<BlockchainServiceTask>, String>)
        requires
            old(self)@.wf(),
        ensures
            final(self)@ == old(self)@.accept(page_items(page)),
            final(self)@.wf(),
    {
        let next_range_start = self.next_range().end;
        let mut received: usize = 0;
        match page {
            Ok(tasks) => {
                received = tasks.len();
                let mut i: usize = 0;
                while i < tasks.len()
                    invariant
                        i <= tasks.len(),
                        self.pending@ == old(self).pending@ + tasks@.subrange(0, i as int),
                        self.range == old(self).range,
                    decreases tasks.len() - i,
                {
                    self.pending.push_back(tasks[i]);
                    i += 1;
                }
                assert(tasks@.subrange(0, i as int) == tasks@);
            },
            Err(_) => {
                assert(self.pending@ == old(self).pending@ + Seq::empty());
            },
        }
        if received == PENDING_RANGE_LENGTH {
            self.range.start = next_range_start;
        } else {
            self.range.start = self.range.end;
        }
    }

    /// Hands out the next task of the backlog, or `None` once the scan has
    /// ended. Buffered tasks go first; with an empty buffer the backlog is
    /// asked for the next window, once.
    pub fn next<F>(&mut self, get_pending_tasks: &F) -> (task: Option<BlockchainServiceTask>) where
        F: Fn(Range<usize>) -> Result<Vec<BlockchainServiceTask>, String>,

        requires
            old(self)@.wf(),
            old(self)@.needs_page() ==> call_requires(get_pending_tasks, (old(self)@.window(),)),
        ensures
            final(self)@.wf(),
            !old(self)@.needs_page() ==> (final(self)@, task) == old(self)@.next(Seq::empty()),
            old(self)@.needs_page() ==> exists|page: Result<Vec<BlockchainServiceTask>, String>|
                {
                    &&& call_ensures(get_pending_tasks, (old(self)@.window(),), page)
                    &&& (final(self)@, task) == old(self)@.next(page_items(page))
                },
    {
        let ghost before = self@;
        let ghost mut fetched: Option<Result<Vec<BlockchainServiceTask>, String>> = None;
        loop
            invariant
                before == old(self)@,
                before.wf(),
                self@.wf(),
                before.needs_page() ==> call_requires(get_pending_tasks, (before.window(),)),
                fetched is None ==> self@ == before,
                fetched matches Some(page) ==> {
                    &&& before.needs_page()
                    &&& call_ensures(get_pending_tasks, (before.window(),), page)
                    &&& self@ == before.accept(page_items(page))
                },
            decreases
                    (if fetched is None {
                        1nat
                    } else {
                        0nat
                    }),
        {
            let ghost current = self@;
            if let Some(pending_task) = self.pending.pop_front() {
                assert(self@ == current.pop());
                return Some(pending_task);
            }
            if self.range.start == self.range.end {
                return None;
            }
            let page = get_pending_tasks(self.next_range());
            proof {
                fetched = Some(page);
            }
            self.accept_page(page);
        }
    }
}

} // verus!
