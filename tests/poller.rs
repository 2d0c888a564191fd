use rpc_watch::poller::{HeightReport, PollEvent, PollState, Poller};
use rpc_watch::region::geo_label;

/// Feeds height reports; for each catch-up, fetches every block it asks for,
/// failing those in `fail`. Returns the heights fetched, in order.
fn drive(p: &mut Poller, heights: &[u64], fail: &[u64]) -> Vec<u64> {
    let mut fetched = Vec::new();
    for h in heights {
        p.on_height(*h);
        while let Some(b) = p.next_block() {
            fetched.push(b);
            p.on_block(b, !fail.contains(&b));
        }
    }
    fetched
}

#[test]
fn first_height_sets_gauge() {
    let mut p = Poller::new();
    assert_eq!(p.state(), PollState::AwaitingFirstHeight);
    p.on_height(0);
    assert_eq!(p.state(), PollState::AwaitingFirstHeight);
    p.handle(PollEvent::HeightFailed);
    assert_eq!(p.gauge(), 0);
    p.on_height(100);
    assert_eq!(p.state(), PollState::Watching(100));
    assert_eq!(p.gauge(), 100);
}

#[test]
fn heights_100_100_103_fetch_each_new_block_once() {
    let mut p = Poller::new();
    let fetched = drive(&mut p, &[100, 100, 103], &[]);
    assert_eq!(fetched, vec![101, 102, 103]);
    assert_eq!(p.gauge(), 103);
    assert_eq!(p.state(), PollState::Watching(103));
}

#[test]
fn height_regression_is_ignored() {
    let mut p = Poller::new();
    drive(&mut p, &[100], &[]);
    let fetched = drive(&mut p, &[95], &[]);
    assert!(fetched.is_empty());
    assert_eq!(p.gauge(), 100);
    assert_eq!(p.state(), PollState::Watching(100));
    assert!(p.wants_height());
}

#[test]
fn failed_block_is_skipped() {
    let mut p = Poller::new();
    drive(&mut p, &[100], &[]);
    let fetched = drive(&mut p, &[105], &[102]);
    assert_eq!(fetched, vec![101, 102, 103, 104, 105]);
    assert_eq!(p.gauge(), 105);
}

#[test]
fn gauge_stays_on_last_fetched_block() {
    let mut p = Poller::new();
    drive(&mut p, &[100], &[]);
    p.on_height(103);
    assert_eq!(p.state(), PollState::CatchingUp(100, 103));
    assert!(!p.wants_height());
    p.on_block(101, true);
    assert_eq!(p.gauge(), 101);
    p.on_block(101, true);
    assert_eq!(p.state(), PollState::CatchingUp(101, 103));
    p.on_height(200);
    assert_eq!(p.state(), PollState::CatchingUp(101, 103));
    p.on_block(102, true);
    p.on_block(103, false);
    assert_eq!(p.gauge(), 102);
    assert_eq!(p.state(), PollState::Watching(103));
}

#[test]
fn gauge_never_decreases_on_mixed_reports() {
    let mut p = Poller::new();
    let mut last = 0;
    let reports = [7u64, 3, 9, 9, 2, 12, 0, 11, 15];
    for r in reports {
        p.handle(PollEvent::Height(r));
        while let Some(b) = p.next_block() {
            p.handle(PollEvent::Block(b, b % 2 == 0));
            assert!(p.gauge() >= last);
            last = p.gauge();
        }
        assert!(p.gauge() >= last);
        last = p.gauge();
    }
    assert_eq!(p.state(), PollState::Watching(15));
    assert_eq!(p.gauge(), 14);
}

#[test]
fn height_reports_say_what_changed() {
    let mut p = Poller::new();
    assert_eq!(p.on_height(0), HeightReport::NoHeight);
    assert_eq!(p.on_height(100), HeightReport::First(100));
    assert_eq!(p.on_height(100), HeightReport::Unchanged);
    assert_eq!(p.on_height(95), HeightReport::Regressed(100));
    assert_eq!(p.on_height(103), HeightReport::NewBlocks(3));
    assert_eq!(p.on_height(110), HeightReport::Busy);
    assert_eq!(p.state(), PollState::CatchingUp(100, 103));
}

#[test]
fn geo_label_joins_with_dash() {
    assert_eq!(geo_label("US", "CA"), "US-CA");
}
