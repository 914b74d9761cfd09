use eman::probe::{resolve, NotFound, Probe, Reply, Request};
use eman::walk::Walk;

/// A kernel that holds the objects `(id, handle to give, record behind it)`:
/// a negative handle stands for an object that goes before it is opened, and
/// no record for one whose fetch fails. It answers each request of the walk
/// and notes the calls it got.
struct Script {
    objects: Vec<(u32, i32, Option<u64>)>,
    calls: Vec<Request>,
}

impl Script {
    fn answer(&mut self, request: Request) -> Reply<u64> {
        self.calls.push(request);
        match request {
            Request::NextId { after } => match self.objects.iter().find(|o| o.0 > after) {
                Some(o) => Reply::NextId { status: 0, id: o.0 },
                None => Reply::NextId { status: -2, id: 0 },
            },
            Request::Open { id } => {
                let o = self.objects.iter().find(|o| o.0 == id).unwrap();
                Reply::Opened { fd: o.1 }
            }
            Request::Fetch { fd } => {
                let o = self.objects.iter().find(|o| o.1 == fd).unwrap();
                match o.2 {
                    Some(record) => Reply::Fetched { status: 0, record },
                    None => Reply::Fetched { status: -1, record: 0 },
                }
            }
            Request::Close { .. } => Reply::Closed,
            Request::Done => unreachable!(),
        }
    }
}

fn enumerate(objects: Vec<(u32, i32, Option<u64>)>) -> (Vec<u64>, Vec<Request>) {
    let mut script = Script { objects, calls: Vec::new() };
    let mut walk: Walk<u64> = Walk::start();
    let mut steps = 0;
    while !walk.is_finished() {
        let reply = script.answer(walk.request());
        walk = walk.advance(reply);
        steps += 1;
        assert!(steps < 1000);
    }
    assert_eq!(walk.request(), Request::Done);
    (walk.into_records(), script.calls)
}

#[test]
fn walk_keeps_the_order_of_the_kernel() {
    let (found, calls) =
        enumerate(vec![(2, 10, Some(200)), (5, 11, Some(500)), (9, 12, Some(900))]);
    assert_eq!(found, vec![200, 500, 900]);
    assert_eq!(
        calls,
        vec![
            Request::NextId { after: 0 },
            Request::Open { id: 2 },
            Request::Fetch { fd: 10 },
            Request::Close { fd: 10 },
            Request::NextId { after: 2 },
            Request::Open { id: 5 },
            Request::Fetch { fd: 11 },
            Request::Close { fd: 11 },
            Request::NextId { after: 5 },
            Request::Open { id: 9 },
            Request::Fetch { fd: 12 },
            Request::Close { fd: 12 },
            Request::NextId { after: 9 },
        ]
    );
}

#[test]
fn walk_over_nothing_finds_nothing() {
    let (found, calls) = enumerate(vec![]);
    assert!(found.is_empty());
    assert_eq!(calls, vec![Request::NextId { after: 0 }]);
}

#[test]
fn walk_passes_over_an_object_that_has_gone() {
    let (found, calls) = enumerate(vec![(2, 10, Some(200)), (5, -1, None), (9, 12, Some(900))]);
    assert_eq!(found, vec![200, 900]);
    assert_eq!(
        &calls[4..7],
        &[Request::NextId { after: 2 }, Request::Open { id: 5 }, Request::NextId { after: 5 }]
    );
}

#[test]
fn walk_closes_the_handle_of_a_fetch_that_failed() {
    let (found, calls) = enumerate(vec![(2, 10, None), (5, 11, Some(500))]);
    assert_eq!(found, vec![500]);
    assert_eq!(
        &calls[..5],
        &[
            Request::NextId { after: 0 },
            Request::Open { id: 2 },
            Request::Fetch { fd: 10 },
            Request::Close { fd: 10 },
            Request::NextId { after: 2 },
        ]
    );
}

#[test]
fn walk_ends_empty_where_every_object_has_gone() {
    let objects: Vec<(u32, i32, Option<u64>)> = (1..=50).map(|id| (id, -1, None)).collect();
    let (found, calls) = enumerate(objects);
    assert!(found.is_empty());
    assert_eq!(calls.len(), 101);
    assert!(calls.iter().all(|c| !matches!(c, Request::Fetch { .. } | Request::Close { .. })));
}

#[test]
fn walk_closes_every_handle_it_opened_before_it_asks_on() {
    let (_, calls) = enumerate(vec![(1, 3, Some(1)), (2, 3, None), (3, -9, None), (4, 3, Some(4))]);
    let mut held: Option<i32> = None;
    for call in calls {
        match call {
            Request::Fetch { fd } => {
                assert_eq!(held, None);
                held = Some(fd);
            }
            Request::Close { fd } => {
                assert_eq!(held, Some(fd));
                held = None;
            }
            _ => assert_eq!(held, None),
        }
    }
    assert_eq!(held, None);
}

#[test]
fn walk_reaches_the_last_id() {
    let (found, calls) = enumerate(vec![(u32::MAX, 4, Some(77))]);
    assert_eq!(found, vec![77]);
    assert_eq!(calls.last(), Some(&Request::NextId { after: u32::MAX }));
}

#[test]
fn walk_takes_handle_zero() {
    let (found, _) = enumerate(vec![(1, 0, Some(11))]);
    assert_eq!(found, vec![11]);
}

#[test]
fn walk_ignores_a_reply_to_another_call() {
    let walk: Walk<u64> = Walk::start();
    let walk = walk.advance(Reply::Closed);
    assert_eq!(walk.request(), Request::NextId { after: 0 });
    let walk = walk.advance(Reply::Opened { fd: 3 });
    assert_eq!(walk.request(), Request::NextId { after: 0 });
    let walk = walk.advance(Reply::NextId { status: 0, id: 4 });
    assert_eq!(walk.request(), Request::Open { id: 4 });
    let walk = walk.advance(Reply::NextId { status: 0, id: 8 });
    assert_eq!(walk.request(), Request::Open { id: 4 });
    let walk = walk.advance(Reply::Opened { fd: 3 });
    let walk = walk.advance(Reply::Closed);
    assert_eq!(walk.request(), Request::Fetch { fd: 3 });
    let walk = walk.advance(Reply::Fetched { status: 0, record: 40 });
    let walk = walk.advance(Reply::Fetched { status: 0, record: 41 });
    assert_eq!(walk.request(), Request::Close { fd: 3 });
    let walk = walk.advance(Reply::Closed);
    let walk = walk.advance(Reply::NextId { status: 1, id: 0 });
    assert!(walk.is_finished());
    let walk = walk.advance(Reply::NextId { status: 0, id: 9 });
    assert!(walk.is_finished());
    assert_eq!(walk.into_records(), vec![40]);
}

#[test]
fn resolve_tells_a_handle_from_a_failure() {
    assert_eq!(resolve(0), Ok(0));
    assert_eq!(resolve(17), Ok(17));
    assert_eq!(resolve(i32::MAX), Ok(i32::MAX));
    assert_eq!(resolve(-1), Err(NotFound));
    assert_eq!(resolve(i32::MIN), Err(NotFound));
}

#[test]
fn probe_reads_one_object() {
    let probe: Probe<u64> = Probe::start(7);
    assert_eq!(probe.request(), Request::Open { id: 7 });
    let probe = probe.advance(Reply::Opened { fd: 5 });
    assert_eq!(probe.request(), Request::Fetch { fd: 5 });
    let probe = probe.advance(Reply::Fetched { status: 0, record: 70 });
    assert_eq!(probe.request(), Request::Close { fd: 5 });
    let probe = probe.advance(Reply::Closed);
    assert_eq!(probe.request(), Request::Done);
    assert_eq!(probe.finish(), Some(70));
}

#[test]
fn probe_of_an_object_that_has_gone_opens_nothing() {
    let probe: Probe<u64> = Probe::start(7);
    let probe = probe.advance(Reply::Opened { fd: -1 });
    assert_eq!(probe.request(), Request::Done);
    assert_eq!(probe.finish(), None);
}

#[test]
fn probe_closes_its_handle_when_the_fetch_failed() {
    let probe: Probe<u64> = Probe::start(7);
    let probe = probe.advance(Reply::Opened { fd: 5 });
    let probe = probe.advance(Reply::Fetched { status: -22, record: 123 });
    assert_eq!(probe.request(), Request::Close { fd: 5 });
    let probe = probe.advance(Reply::Closed);
    assert_eq!(probe.request(), Request::Done);
    assert_eq!(probe.finish(), None);
}

#[test]
fn probe_at_work_has_no_outcome() {
    let probe: Probe<u64> = Probe::start(7);
    assert_eq!(probe.finish(), None);
    let probe: Probe<u64> = Probe::start(7).advance(Reply::Opened { fd: 5 });
    let probe = probe.advance(Reply::Fetched { status: 0, record: 1 });
    assert_eq!(probe.finish(), None);
}

#[test]
fn probe_ignores_a_reply_to_another_call() {
    let probe: Probe<u64> = Probe::start(7);
    let probe = probe.advance(Reply::Closed);
    assert_eq!(probe.request(), Request::Open { id: 7 });
    let probe = probe.advance(Reply::NextId { status: 0, id: 1 });
    assert_eq!(probe.request(), Request::Open { id: 7 });
    let probe = probe.advance(Reply::Opened { fd: 2 });
    let probe = probe.advance(Reply::Opened { fd: 3 });
    assert_eq!(probe.request(), Request::Fetch { fd: 2 });
    let probe = probe.advance(Reply::Fetched { status: 0, record: 9 });
    let probe = probe.advance(Reply::Fetched { status: 0, record: 8 });
    assert_eq!(probe.request(), Request::Close { fd: 2 });
    let probe = probe.advance(Reply::Closed);
    let probe = probe.advance(Reply::Closed);
    assert_eq!(probe.finish(), Some(9));
}
