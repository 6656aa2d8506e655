//! What holds of the tasks of a block: which events leave a task, and in
//! which order the backlogs are handed out.

use vstd::prelude::*;
use crate::block::{backlogs_left, spec_event_into_task, tasks_of_events, yields, PendingView};
use crate::blockchain::Blockchain;
use crate::pager::{element, ends_with_page, page_items, pages, PagerView, PENDING_RANGE_LENGTH};
use crate::pager_laws::{lemma_step_hands_out_first, outstanding, scanning};
use crate::types::{BlockchainServiceTask, SecretStoreEvent, TaskCategory};

verus! {

/// The tasks of a run of events are the tasks of its first part, then those
/// of its second part.
pub proof fn lemma_tasks_of_events_concat(
    first: Seq<Option<SecretStoreEvent>>,
    second: Seq<Option<SecretStoreEvent>>,
)
    ensures
        tasks_of_events(first + second) == tasks_of_events(first) + tasks_of_events(second),
    decreases second.len(),
{
    if second.len() == 0 {
        assert(first + second =~= first);
        assert(tasks_of_events(first) + Seq::empty() =~= tasks_of_events(first));
    } else {
        lemma_tasks_of_events_concat(first, second.drop_last());
        assert((first + second).drop_last() =~= first + second.drop_last());
        assert((first + second).last() == second.last());
        let earlier = tasks_of_events(first) + tasks_of_events(second.drop_last());
        match second.last() {
            Some(event) => match spec_event_into_task(event) {
                Some(task) => {
                    assert(earlier.push(task) =~= tasks_of_events(first) + tasks_of_events(
                        second.drop_last(),
                    ).push(task));
                },
                None => {},
            },
            None => {},
        }
    }
}

/// An event that asks for no task, be it of another module or of a kind that
/// the key server does not handle, leaves no task, and the events before and
/// after it give the tasks that they give without it.
pub proof fn lemma_unsupported_event_is_passed_over(
    before: Seq<Option<SecretStoreEvent>>,
    event: Option<SecretStoreEvent>,
    after: Seq<Option<SecretStoreEvent>>,
)
    requires
        event matches Some(e) ==> spec_event_into_task(e) is None,
    ensures
        tasks_of_events(seq![event]) == Seq::<BlockchainServiceTask>::empty(),
        tasks_of_events(before + seq![event] + after) == tasks_of_events(before + after),
        tasks_of_events(before + seq![event] + after) == tasks_of_events(before) + tasks_of_events(
            after,
        ),
{
    let single = seq![event];
    assert(single.drop_last() =~= Seq::empty());
    assert(single.last() == event);
    assert(tasks_of_events(single.drop_last()) =~= Seq::empty());
    assert(tasks_of_events(single) =~= Seq::empty());
    lemma_tasks_of_events_concat(before, single);
    lemma_tasks_of_events_concat(before + single, after);
    lemma_tasks_of_events_concat(before, after);
    assert(tasks_of_events(before) + Seq::empty() =~= tasks_of_events(before));
}

/// A call of `next` looks only at the answers of the backlog that is being
/// scanned and of those that follow it.
pub proof fn lemma_step_ignores_earlier_backlogs(
    view: PendingView,
    asked: nat,
    answers: spec_fn(TaskCategory) -> spec_fn(nat) -> Seq<BlockchainServiceTask>,
    others: spec_fn(TaskCategory) -> spec_fn(nat) -> Seq<BlockchainServiceTask>,
)
    requires
        forall|category: TaskCategory|
            backlogs_left(Some(category)) <= backlogs_left(view.category) ==> #[trigger] answers(
                category,
            ) == others(category),
    ensures
        view.step(asked, answers) == view.step(asked, others),
    decreases backlogs_left(view.category),
{
    match view.category {
        None => {},
        Some(category) => {
            assert(answers(category) == others(category));
            lemma_step_ignores_earlier_backlogs(PendingView::after(category), 0, answers, others);
        },
    }
}

/// Whatever a call of `next` on a scan of all backlogs does, it is a step of
/// the run in which the backlogs answer what the chain answered in that call.
pub proof fn lemma_yields_is_a_step<B: Blockchain>(
    blockchain: &B,
    block_hash: B::BlockHash,
    before: PendingView,
    task: Option<BlockchainServiceTask>,
    after: PendingView,
)
    requires
        yields(blockchain, block_hash, before, task, after),
    ensures
        exists|answers: spec_fn(TaskCategory) -> spec_fn(nat) -> Seq<BlockchainServiceTask>|
            {
                &&& (#[trigger] before.step(0, answers)).0 == after
                &&& before.step(0, answers).2 == task
            },
    decreases backlogs_left(before.category),
{
    match before.category {
        None => {
            let answers = |category: TaskCategory|
                |q: nat| Seq::<BlockchainServiceTask>::empty();
            assert(before.step(0, answers).0 == after);
        },
        Some(category) => {
            let page = choose|page: Result<Vec<BlockchainServiceTask>, String>|
                {
                    &&& (#[trigger] before.pager.next(page_items(page))).1 is Some ==> {
                        &&& task == before.pager.next(page_items(page)).1
                        &&& after == PendingView {
                            category: before.category,
                            pager: before.pager.next(page_items(page)).0,
                        }
                    }
                    &&& before.pager.next(page_items(page)).1 is None ==> yields(
                        blockchain,
                        block_hash,
                        PendingView::after(category),
                        task,
                        after,
                    )
                };
            let items = page_items(page);
            let own = |q: nat| items;
            assert(before.pager.step(0, own).0 == before.pager.next(items).0);
            assert(before.pager.step(0, own).2 == before.pager.next(items).1);
            if before.pager.next(items).1 is Some {
                let answers = |other: TaskCategory| own;
                assert(answers(category) == own);
                assert(before.step(0, answers).0 == after);
            } else {
                lemma_yields_is_a_step(
                    blockchain,
                    block_hash,
                    PendingView::after(category),
                    task,
                    after,
                );
                let rest = choose|
                    answers: spec_fn(TaskCategory) -> spec_fn(nat) -> Seq<BlockchainServiceTask>,
                |
                    {
                        &&& (#[trigger] PendingView::after(category).step(0, answers)).0 == after
                        &&& PendingView::after(category).step(0, answers).2 == task
                    };
                let answers = |other: TaskCategory|
                    if other == category {
                        own
                    } else {
                        rest(other)
                    };
                assert(answers(category) == own);
                assert forall|other: TaskCategory|
                    backlogs_left(Some(other)) <= backlogs_left(
                        PendingView::after(category).category,
                    ) implies #[trigger] answers(other) == rest(other) by {}
                lemma_step_ignores_earlier_backlogs(PendingView::after(category), 0, answers, rest);
                assert(before.step(0, answers).0 == after);
            }
        },
    }
}

/// The backlogs from `category` on, each from its beginning to its first
/// page that is not full, one after the other.
pub open spec fn backlogs_from(
    answers: spec_fn(TaskCategory) -> spec_fn(nat) -> Seq<BlockchainServiceTask>,
    last: spec_fn(TaskCategory) -> nat,
    category: Option<TaskCategory>,
) -> Seq<BlockchainServiceTask>
    decreases backlogs_left(category),
{
    match category {
        None => Seq::empty(),
        Some(current) => pages(answers(current), 0, last(current)) + backlogs_from(
            answers,
            last,
            current.spec_following(),
        ),
    }
}

/// Every backlog answers with full pages up to a page that is not full, and
/// none reaches the largest index that the machine can count to.
pub open spec fn backlogs_end(
    answers: spec_fn(TaskCategory) -> spec_fn(nat) -> Seq<BlockchainServiceTask>,
    last: spec_fn(TaskCategory) -> nat,
) -> bool {
    forall|category: TaskCategory|
        {
            &&& ends_with_page(#[trigger] answers(category), last(category))
            &&& last(category) * PENDING_RANGE_LENGTH < usize::MAX
        }
}

spec fn scanning_backlogs(view: PendingView, asked: nat, last: spec_fn(TaskCategory) -> nat) -> bool {
    match view.category {
        None => true,
        Some(category) => scanning(view.pager, asked, last(category)),
    }
}

/// The tasks that the scan of all backlogs has still to hand out.
spec fn outstanding_backlogs(
    view: PendingView,
    asked: nat,
    answers: spec_fn(TaskCategory) -> spec_fn(nat) -> Seq<BlockchainServiceTask>,
    last: spec_fn(TaskCategory) -> nat,
) -> Seq<BlockchainServiceTask> {
    match view.category {
        None => Seq::empty(),
        Some(category) => outstanding(view.pager, asked, answers(category), last(category))
            + backlogs_from(answers, last, category.spec_following()),
    }
}

proof fn lemma_step_hands_out_first_of_backlogs(
    view: PendingView,
    asked: nat,
    answers: spec_fn(TaskCategory) -> spec_fn(nat) -> Seq<BlockchainServiceTask>,
    last: spec_fn(TaskCategory) -> nat,
)
    requires
        backlogs_end(answers, last),
        scanning_backlogs(view, asked, last),
    ensures
        scanning_backlogs(view.step(asked, answers).0, view.step(asked, answers).1, last),
        view.step(asked, answers).2 == element(
            outstanding_backlogs(view, asked, answers, last),
            0,
        ),
        outstanding_backlogs(
            view.step(asked, answers).0,
            view.step(asked, answers).1,
            answers,
            last,
        ) == outstanding_backlogs(view, asked, answers, last).skip(
            if outstanding_backlogs(view, asked, answers, last).len() > 0 {
                1int
            } else {
                0int
            },
        ),
    decreases backlogs_left(view.category),
{
    let out = outstanding_backlogs(view, asked, answers, last);
    let after = view.step(asked, answers);
    let out_after = outstanding_backlogs(after.0, after.1, answers, last);
    match view.category {
        None => {
            assert(out_after =~= out.skip(0));
        },
        Some(category) => {
            assert(ends_with_page(answers(category), last(category)));
            lemma_step_hands_out_first(view.pager, asked, answers(category), last(category));
            let scanned = view.pager.step(asked, answers(category));
            let rest = backlogs_from(answers, last, category.spec_following());
            let own = outstanding(view.pager, asked, answers(category), last(category));
            if scanned.2 is Some {
                assert(own.len() > 0);
                assert(out_after =~= out.skip(1));
            } else {
                assert(own.len() == 0);
                assert(out =~= rest);
                let next = PendingView::after(category);
                match next.category {
                    None => {},
                    Some(following) => {
                        assert(ends_with_page(answers(following), last(following)));
                        assert(outstanding(
                            PagerView::fresh(),
                            0,
                            answers(following),
                            last(following),
                        ) =~= pages(answers(following), 0, last(following)));
                    },
                }
                assert(outstanding_backlogs(next, 0, answers, last) =~= rest);
                lemma_step_hands_out_first_of_backlogs(next, 0, answers, last);
            }
        },
    }
}

proof fn lemma_run_hands_out_prefix_of_backlogs(
    view: PendingView,
    asked: nat,
    answers: spec_fn(TaskCategory) -> spec_fn(nat) -> Seq<BlockchainServiceTask>,
    last: spec_fn(TaskCategory) -> nat,
    n: nat,
)
    requires
        backlogs_end(answers, last),
        scanning_backlogs(view, asked, last),
    ensures
        scanning_backlogs(view.run(asked, answers, n).0, view.run(asked, answers, n).1, last),
        outstanding_backlogs(
            view.run(asked, answers, n).0,
            view.run(asked, answers, n).1,
            answers,
            last,
        ) == outstanding_backlogs(view, asked, answers, last).skip(
            if n < outstanding_backlogs(view, asked, answers, last).len() {
                n as int
            } else {
                outstanding_backlogs(view, asked, answers, last).len() as int
            },
        ),
        view.nth(asked, answers, n) == element(
            outstanding_backlogs(view, asked, answers, last),
            n,
        ),
    decreases n,
{
    let out = outstanding_backlogs(view, asked, answers, last);
    if n == 0 {
        assert(out.skip(0) =~= out);
    } else {
        lemma_run_hands_out_prefix_of_backlogs(view, asked, answers, last, (n - 1) as nat);
        let before = view.run(asked, answers, (n - 1) as nat);
        lemma_step_hands_out_first_of_backlogs(before.0, before.1, answers, last);
        let now = view.run(asked, answers, n);
        let out_now = outstanding_backlogs(now.0, now.1, answers, last);
        if n - 1 < out.len() {
            assert(out_now =~= out.skip(n as int));
        } else {
            assert(out_now =~= out.skip(out.len() as int));
        }
    }
    let now = view.run(asked, answers, n);
    lemma_step_hands_out_first_of_backlogs(now.0, now.1, answers, last);
}

/// The backlogs are handed out one after the other and never interleaved:
/// all tasks of the server key generations, then all of the server key
/// retrievals, then all of the document key stores, then all of the document
/// key shadow retrievals, each backlog in the order of its pages; and after
/// them nothing.
pub proof fn lemma_backlogs_in_category_order(
    answers: spec_fn(TaskCategory) -> spec_fn(nat) -> Seq<BlockchainServiceTask>,
    last: spec_fn(TaskCategory) -> nat,
    n: nat,
)
    requires
        backlogs_end(answers, last),
    ensures
        PendingView::start().nth(0, answers, n) == element(
            pages(
                answers(TaskCategory::ServerKeyGeneration),
                0,
                last(TaskCategory::ServerKeyGeneration),
            ) + pages(
                answers(TaskCategory::ServerKeyRetrieval),
                0,
                last(TaskCategory::ServerKeyRetrieval),
            ) + pages(
                answers(TaskCategory::DocumentKeyStore),
                0,
                last(TaskCategory::DocumentKeyStore),
            ) + pages(
                answers(TaskCategory::DocumentKeyShadowRetrieval),
                0,
                last(TaskCategory::DocumentKeyShadowRetrieval),
            ),
            n,
        ),
{
    let start = PendingView::start();
    let generation = TaskCategory::ServerKeyGeneration;
    let retrieval = TaskCategory::ServerKeyRetrieval;
    let store = TaskCategory::DocumentKeyStore;
    let shadow = TaskCategory::DocumentKeyShadowRetrieval;
    assert(ends_with_page(answers(generation), last(generation)));
    assert(backlogs_from(answers, last, shadow.spec_following()) =~= Seq::empty());
    assert(backlogs_from(answers, last, Some(shadow)) =~= pages(answers(shadow), 0, last(shadow)));
    assert(backlogs_from(answers, last, Some(store)) =~= pages(answers(store), 0, last(store))
        + pages(answers(shadow), 0, last(shadow)));
    assert(backlogs_from(answers, last, Some(retrieval)) =~= pages(
        answers(retrieval),
        0,
        last(retrieval),
    ) + pages(answers(store), 0, last(store)) + pages(answers(shadow), 0, last(shadow)));
    assert(outstanding_backlogs(start, 0, answers, last) =~= pages(
        answers(generation),
        0,
        last(generation),
    ) + pages(answers(retrieval), 0, last(retrieval)) + pages(answers(store), 0, last(store))
        + pages(answers(shadow), 0, last(shadow)));
    lemma_run_hands_out_prefix_of_backlogs(start, 0, answers, last, n);
}

} // verus!
