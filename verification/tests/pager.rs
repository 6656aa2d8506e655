use secretstore_substrate_service::{
    Address, BlockchainServiceTask, PendingTasksIterator, Requester, ServerKeyId, ServiceTask,
    PENDING_RANGE_LENGTH,
};
use std::cell::RefCell;
use std::ops::Range;

fn task(n: u8) -> BlockchainServiceTask {
    BlockchainServiceTask::Regular(
        Address([0u8; 20]),
        ServiceTask::GenerateServerKey(
            ServerKeyId([n; 32]),
            Requester::Address(Address([n; 20])),
            usize::from(n),
        ),
    )
}

fn tasks(from: u8, to: u8) -> Vec<BlockchainServiceTask> {
    (from..=to).map(task).collect()
}

fn drain<F>(pager: &mut PendingTasksIterator, query: &F) -> Vec<BlockchainServiceTask>
where
    F: Fn(Range<usize>) -> Result<Vec<BlockchainServiceTask>, String>,
{
    let mut out: Vec<BlockchainServiceTask> = Vec::new();
    while let Some(next) = pager.next(query) {
        out.push(next);
    }
    out
}

#[test]
fn window_length_is_sixteen() {
    assert_eq!(PENDING_RANGE_LENGTH, 16usize);
}

#[test]
fn fresh_pager_asks_for_the_first_window() {
    let pager = PendingTasksIterator::new();
    assert_eq!(pager.next_range(), 0usize..16usize);
}

#[test]
fn full_page_then_short_page_yields_all_then_stops() {
    let asked: RefCell<Vec<Range<usize>>> = RefCell::new(Vec::new());
    let query = |range: Range<usize>| -> Result<Vec<BlockchainServiceTask>, String> {
        asked.borrow_mut().push(range.clone());
        if range == (0usize..16usize) {
            Ok(tasks(1, 16))
        } else if range == (16usize..32usize) {
            Ok(tasks(17, 18))
        } else {
            panic!("unexpected window {:?}", range)
        }
    };
    let mut pager = PendingTasksIterator::new();
    let out = drain(&mut pager, &query);
    assert_eq!(out, tasks(1, 18));
    assert_eq!(pager.next(&query), None);
    assert_eq!(pager.next(&query), None);
    assert_eq!(*asked.borrow(), vec![0usize..16usize, 16usize..32usize]);
}

#[test]
fn two_full_pages_and_a_short_one_yield_in_arrival_order() {
    let query = |range: Range<usize>| -> Result<Vec<BlockchainServiceTask>, String> {
        match range.start {
            0 => Ok(tasks(1, 16)),
            16 => Ok(tasks(17, 32)),
            32 => Ok(tasks(33, 37)),
            _ => panic!("unexpected window {:?}", range),
        }
    };
    let mut pager = PendingTasksIterator::new();
    let out = drain(&mut pager, &query);
    assert_eq!(out.len(), 2 * 16 + 5);
    assert_eq!(out, tasks(1, 37));
    assert_eq!(pager.next(&query), None);
}

#[test]
fn full_pages_followed_by_an_empty_page_stop_the_scan() {
    let asked: RefCell<Vec<Range<usize>>> = RefCell::new(Vec::new());
    let query = |range: Range<usize>| -> Result<Vec<BlockchainServiceTask>, String> {
        asked.borrow_mut().push(range.clone());
        if range.start == 0 {
            Ok(tasks(1, 16))
        } else {
            Ok(Vec::new())
        }
    };
    let mut pager = PendingTasksIterator::new();
    assert_eq!(drain(&mut pager, &query), tasks(1, 16));
    assert_eq!(pager.next(&query), None);
    assert_eq!(*asked.borrow(), vec![0usize..16usize, 16usize..32usize]);
}

#[test]
fn failed_query_ends_the_scan_like_an_empty_page() {
    let asked: RefCell<Vec<Range<usize>>> = RefCell::new(Vec::new());
    let query = |range: Range<usize>| -> Result<Vec<BlockchainServiceTask>, String> {
        asked.borrow_mut().push(range);
        Err(String::from("node is away"))
    };
    let mut pager = PendingTasksIterator::new();
    assert_eq!(pager.next(&query), None);
    assert_eq!(pager.next(&query), None);
    assert_eq!(pager.next(&query), None);
    assert_eq!(*asked.borrow(), vec![0usize..16usize]);
}

#[test]
fn failure_after_a_full_page_keeps_what_was_fetched() {
    let asked: RefCell<Vec<Range<usize>>> = RefCell::new(Vec::new());
    let query = |range: Range<usize>| -> Result<Vec<BlockchainServiceTask>, String> {
        asked.borrow_mut().push(range.clone());
        if range.start == 0 {
            Ok(tasks(1, 16))
        } else {
            Err(String::from("storage read failed"))
        }
    };
    let mut pager = PendingTasksIterator::new();
    assert_eq!(drain(&mut pager, &query), tasks(1, 16));
    assert_eq!(pager.next(&query), None);
    assert_eq!(*asked.borrow(), vec![0usize..16usize, 16usize..32usize]);
}

#[test]
fn no_window_is_asked_twice() {
    let asked: RefCell<Vec<Range<usize>>> = RefCell::new(Vec::new());
    let query = |range: Range<usize>| -> Result<Vec<BlockchainServiceTask>, String> {
        asked.borrow_mut().push(range.clone());
        if range.start < 64 {
            Ok(tasks(1, 16))
        } else {
            Err(String::from("gone"))
        }
    };
    let mut pager = PendingTasksIterator::new();
    let out = drain(&mut pager, &query);
    assert_eq!(out.len(), 64);
    assert_eq!(pager.next(&query), None);
    let windows = asked.borrow();
    assert_eq!(
        *windows,
        vec![0usize..16usize, 16usize..32usize, 32usize..48usize, 48usize..64usize, 64usize..80usize]
    );
    for i in 1..windows.len() {
        assert!(windows[i - 1].end <= windows[i].start);
    }
}

#[test]
fn page_longer_than_a_window_is_handed_out_and_ends_the_scan() {
    let asked: RefCell<Vec<Range<usize>>> = RefCell::new(Vec::new());
    let query = |range: Range<usize>| -> Result<Vec<BlockchainServiceTask>, String> {
        asked.borrow_mut().push(range);
        Ok(tasks(1, 17))
    };
    let mut pager = PendingTasksIterator::new();
    assert_eq!(drain(&mut pager, &query), tasks(1, 17));
    assert_eq!(pager.next(&query), None);
    assert_eq!(asked.borrow().len(), 1);
}

#[test]
fn buffered_tasks_go_out_before_the_backlog_is_asked_again() {
    let asked: RefCell<usize> = RefCell::new(0);
    let query = |_range: Range<usize>| -> Result<Vec<BlockchainServiceTask>, String> {
        *asked.borrow_mut() += 1;
        Ok(tasks(1, 16))
    };
    let mut pager = PendingTasksIterator::new();
    for n in 1u8..=16u8 {
        assert_eq!(pager.next(&query), Some(task(n)));
        assert_eq!(*asked.borrow(), 1);
    }
    assert_eq!(pager.next(&query), Some(task(1)));
    assert_eq!(*asked.borrow(), 2);
}

#[test]
fn accept_page_moves_the_window_only_after_a_full_page() {
    let mut pager = PendingTasksIterator::new();
    pager.accept_page(Ok(tasks(1, 16)));
    assert_eq!(pager.next_range(), 16usize..32usize);
    pager.accept_page(Ok(tasks(17, 31)));
    assert_eq!(pager.next_range(), usize::MAX..usize::MAX);

    let mut failed = PendingTasksIterator::new();
    failed.accept_page(Err(String::from("no answer")));
    assert_eq!(failed.next_range(), usize::MAX..usize::MAX);
    let never = |_range: Range<usize>| -> Result<Vec<BlockchainServiceTask>, String> {
        panic!("an exhausted scan asks for nothing")
    };
    assert_eq!(failed.next(&never), None);
    assert_eq!(drain(&mut pager, &never), tasks(1, 31));
}
