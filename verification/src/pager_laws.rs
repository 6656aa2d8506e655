//! What holds of every scan of a backlog, whatever the backlog answers.

use vstd::prelude::*;
use crate::pager::{element, page_items, pages, ends_with_page, PagerView, PENDING_RANGE_LENGTH};
use crate::types::BlockchainServiceTask;

verus! {

/// A failed query is taken exactly as a page without tasks: it adds nothing
/// to the buffer and ends the scan.
pub proof fn lemma_failed_query_is_empty_page(
    view: PagerView,
    error: String,
    empty: Vec<BlockchainServiceTask>,
)
    requires
        empty@.len() == 0,
    ensures
        page_items(Err(error)) == page_items(Ok(empty)),
        view.accept(page_items(Err(error))) == view.accept(page_items(Ok(empty))),
        view.next(page_items(Err(error))) == view.next(page_items(Ok(empty))),
        view.accept(page_items(Err(error))).pending == view.pending,
        view.accept(page_items(Err(error))).is_exhausted(),
        view.needs_page() ==> view.next(page_items(Err(error))).1 is None,
{
    assert(empty@ =~= Seq::empty());
    assert(view.pending + Seq::empty() =~= view.pending);
}

/// Whatever a page holds, the window that was asked for is never part of the
/// unexplored range again.
pub proof fn lemma_window_is_consumed(view: PagerView, items: Seq<BlockchainServiceTask>)
    requires
        view.wf(),
        !view.is_exhausted(),
    ensures
        view.start < view.window_end() <= view.accept(items).start,
        view.accept(items).start <= view.accept(items).end == view.end,
        view.accept(items).wf(),
{
}

/// A call of `next` keeps the state well formed and never moves the
/// unexplored range backwards; a call that queries moves it past the window.
proof fn lemma_step_advances(
    view: PagerView,
    asked: nat,
    answers: spec_fn(nat) -> Seq<BlockchainServiceTask>,
)
    requires
        view.wf(),
    ensures
        view.step(asked, answers).0.wf(),
        view.step(asked, answers).0.end == view.end,
        view.start <= view.step(asked, answers).0.start,
        view.needs_page() ==> view.window_end() <= view.step(asked, answers).0.start,
{
}

proof fn lemma_run_advances(
    view: PagerView,
    asked: nat,
    answers: spec_fn(nat) -> Seq<BlockchainServiceTask>,
    n: nat,
    m: nat,
)
    requires
        view.wf(),
        n <= m,
    ensures
        view.run(asked, answers, m).0.wf(),
        view.run(asked, answers, n).0.start <= view.run(asked, answers, m).0.start,
        n < m && view.run(asked, answers, n).0.needs_page() ==> view.run(
            asked,
            answers,
            n,
        ).0.window_end() <= view.run(asked, answers, m).0.start,
    decreases m,
{
    if m == 0 {
    } else if n == m {
        lemma_run_advances(view, asked, answers, (m - 1) as nat, (m - 1) as nat);
        let before = view.run(asked, answers, (m - 1) as nat);
        lemma_step_advances(before.0, before.1, answers);
    } else {
        lemma_run_advances(view, asked, answers, n, (m - 1) as nat);
        let before = view.run(asked, answers, (m - 1) as nat);
        lemma_step_advances(before.0, before.1, answers);
    }
}

/// No window is asked for twice: of two calls of `next` that both query the
/// backlog, the later one asks for a window that begins where the earlier
/// one's window ended, or later. This holds whatever the queries answer,
/// failures included.
pub proof fn lemma_windows_never_repeat(
    view: PagerView,
    asked: nat,
    answers: spec_fn(nat) -> Seq<BlockchainServiceTask>,
    n: nat,
    m: nat,
)
    requires
        view.wf(),
        n < m,
        view.run(asked, answers, n).0.needs_page(),
        view.run(asked, answers, m).0.needs_page(),
    ensures
        view.run(asked, answers, n).0.window().start < view.run(asked, answers, n).0.window().end,
        view.run(asked, answers, n).0.window().end <= view.run(asked, answers, m).0.window().start,
{
    lemma_run_advances(view, asked, answers, n, m);
    lemma_run_advances(view, asked, answers, n, n);
}

/// The scan is on its way through a backlog whose answer number `last` is
/// the first page that is not full.
pub open spec fn scanning(view: PagerView, asked: nat, last: nat) -> bool {
    &&& view.wf()
    &&& last * PENDING_RANGE_LENGTH < view.end
    &&& !view.is_exhausted() ==> asked <= last && view.start == asked * PENDING_RANGE_LENGTH
}

/// The tasks that the scan has still to hand out.
pub open spec fn outstanding(
    view: PagerView,
    asked: nat,
    answers: spec_fn(nat) -> Seq<BlockchainServiceTask>,
    last: nat,
) -> Seq<BlockchainServiceTask> {
    if view.is_exhausted() {
        view.pending
    } else {
        view.pending + pages(answers, asked, last)
    }
}

proof fn lemma_pages_len(
    answers: spec_fn(nat) -> Seq<BlockchainServiceTask>,
    from: nat,
    last: nat,
)
    requires
        ends_with_page(answers, last),
        from <= last,
    ensures
        pages(answers, from, last).len() == (last - from) * PENDING_RANGE_LENGTH + answers(
            last,
        ).len(),
    decreases last - from,
{
    if from < last {
        lemma_pages_len(answers, from + 1, last);
    } else {
        assert(pages(answers, from + 1, last) =~= Seq::empty());
    }
}

/// In a backlog that ends, a call of `next` hands out the first of the tasks
/// that are still to come, if there is one, and leaves the others.
pub proof fn lemma_step_hands_out_first(
    view: PagerView,
    asked: nat,
    answers: spec_fn(nat) -> Seq<BlockchainServiceTask>,
    last: nat,
)
    requires
        ends_with_page(answers, last),
        scanning(view, asked, last),
    ensures
        scanning(view.step(asked, answers).0, view.step(asked, answers).1, last),
        view.step(asked, answers).2 == element(outstanding(view, asked, answers, last), 0),
        outstanding(view.step(asked, answers).0, view.step(asked, answers).1, answers, last)
            == outstanding(view, asked, answers, last).skip(
            if outstanding(view, asked, answers, last).len() > 0 {
                1int
            } else {
                0int
            },
        ),
{
    let out = outstanding(view, asked, answers, last);
    let after = view.step(asked, answers);
    let out_after = outstanding(after.0, after.1, answers, last);
    if view.pending.len() > 0 {
        assert(out_after =~= out.skip(1));
    } else if view.is_exhausted() {
        assert(out_after =~= out.skip(0));
    } else {
        let items = answers(asked);
        assert(pages(answers, asked, last) == items + pages(answers, asked + 1, last));
        if asked < last {
            assert(items.len() == PENDING_RANGE_LENGTH);
            assert((asked + 1) * PENDING_RANGE_LENGTH <= last * PENDING_RANGE_LENGTH)
                by (nonlinear_arith)
                requires
                    asked + 1 <= last,
            ;
            assert((asked + 1) * PENDING_RANGE_LENGTH == asked * PENDING_RANGE_LENGTH
                + PENDING_RANGE_LENGTH) by (nonlinear_arith);
            assert(after.0.start == (asked + 1) * PENDING_RANGE_LENGTH);
            assert(out_after =~= out.skip(1));
        } else {
            assert(pages(answers, asked + 1, last) =~= Seq::empty());
            assert(after.0.is_exhausted());
            if items.len() > 0 {
                assert(out_after =~= out.skip(1));
            } else {
                assert(out_after =~= out.skip(0));
            }
        }
    }
}

proof fn lemma_run_hands_out_prefix(
    view: PagerView,
    asked: nat,
    answers: spec_fn(nat) -> Seq<BlockchainServiceTask>,
    last: nat,
    n: nat,
)
    requires
        ends_with_page(answers, last),
        scanning(view, asked, last),
    ensures
        scanning(view.run(asked, answers, n).0, view.run(asked, answers, n).1, last),
        outstanding(view.run(asked, answers, n).0, view.run(asked, answers, n).1, answers, last)
            == outstanding(view, asked, answers, last).skip(
            if n < outstanding(view, asked, answers, last).len() {
                n as int
            } else {
                outstanding(view, asked, answers, last).len() as int
            },
        ),
        view.nth(asked, answers, n) == element(outstanding(view, asked, answers, last), n),
    decreases n,
{
    let out = outstanding(view, asked, answers, last);
    if n == 0 {
        assert(out.skip(0) =~= out);
    } else {
        lemma_run_hands_out_prefix(view, asked, answers, last, (n - 1) as nat);
        let before = view.run(asked, answers, (n - 1) as nat);
        lemma_step_hands_out_first(before.0, before.1, answers, last);
        let out_before = outstanding(before.0, before.1, answers, last);
        let now = view.run(asked, answers, n);
        let out_now = outstanding(now.0, now.1, answers, last);
        if n - 1 < out.len() {
            assert(out_before =~= out.skip(n - 1));
            assert(out_now =~= out.skip(n as int));
        } else {
            assert(out_now =~= out.skip(out.len() as int));
        }
    }
    let now = view.run(asked, answers, n);
    lemma_step_hands_out_first(now.0, now.1, answers, last);
}

/// A backlog that answers its first `last` queries with full pages and the
/// next one with a page that is not full is handed out whole: every task of
/// these pages, pages in the order of their arrival and tasks in the order of
/// their page, and after them nothing, however often `next` is called.
///
/// The bound on `last` leaves out only backlogs whose full pages would reach
/// the largest index that the machine can count to.
pub proof fn lemma_full_pages_then_short_page(
    answers: spec_fn(nat) -> Seq<BlockchainServiceTask>,
    last: nat,
    n: nat,
)
    requires
        ends_with_page(answers, last),
        last * PENDING_RANGE_LENGTH < usize::MAX,
    ensures
        pages(answers, 0, last).len() == last * PENDING_RANGE_LENGTH + answers(last).len(),
        PagerView::fresh().nth(0, answers, n) == element(pages(answers, 0, last), n),
{
    lemma_pages_len(answers, 0, last);
    let fresh = PagerView::fresh();
    assert(outstanding(fresh, 0, answers, last) =~= pages(answers, 0, last));
    lemma_run_hands_out_prefix(fresh, 0, answers, last, n);
}

/// In a scan from the beginning of a backlog that ends, the queries ask for
/// the windows one after the other: query number `q`, counting from zero,
/// asks for the window that begins at `q` window lengths, and none is asked
/// after the first page that is not full.
pub proof fn lemma_queries_ask_successive_windows(
    answers: spec_fn(nat) -> Seq<BlockchainServiceTask>,
    last: nat,
    n: nat,
)
    requires
        ends_with_page(answers, last),
        last * PENDING_RANGE_LENGTH < usize::MAX,
    ensures
        ({
            let now = PagerView::fresh().run(0, answers, n);
            now.0.needs_page() ==> {
                &&& now.1 <= last
                &&& now.0.window().start == now.1 * PENDING_RANGE_LENGTH
                &&& now.1 < last ==> now.0.window().end == now.1 * PENDING_RANGE_LENGTH
                    + PENDING_RANGE_LENGTH
            }
        }),
{
    lemma_run_hands_out_prefix(PagerView::fresh(), 0, answers, last, n);
    let now = PagerView::fresh().run(0, answers, n);
    if now.0.needs_page() && now.1 < last {
        assert((now.1 + 1) * PENDING_RANGE_LENGTH <= last * PENDING_RANGE_LENGTH)
            by (nonlinear_arith)
            requires
                now.1 + 1 <= last,
        ;
        assert((now.1 + 1) * PENDING_RANGE_LENGTH == now.1 * PENDING_RANGE_LENGTH
            + PENDING_RANGE_LENGTH) by (nonlinear_arith);
    }
}

} // verus!
