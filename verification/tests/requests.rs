//! Orders, comments, engagement and proofing rounds.

use dam_db::commands::{Command, Value};
use dam_db::comments::{self, Comment, CommentRefusal, CommentRow, NewComment, Status, Visibility, MAX_BODY_CHARS};
use dam_db::engagement::{self, EngagementRefusal, List};
use dam_db::orders::{
    approve, cancel, into_order, list_limit, mark_collected, mark_ready, place, purpose, reject, with_items, Item,
    ItemRow, NewOrder, Order, OrderRefusal, OrderRow,
};
use dam_db::orders;
use dam_db::proofing::{
    self, asset_count, check_open, decide, decide_outcome, decision, hydrate, may_read, stored_note, Ending, NewRound,
    Outcome, ProofRefusal, ReviewerRow, RoundRow, Verdict,
};
use dam_db::Error;

// ---- orders -----------------------------------------------------------------------------------------

fn order_row(id: u128, state: &str) -> OrderRow {
    OrderRow {
        id,
        reference: "ORD-000123".to_owned(),
        requested_by: 7,
        purpose: "press".to_owned(),
        channel: None,
        territory: None,
        conversion_key: None,
        include_metadata: false,
        recipients: vec![],
        state: state.to_owned(),
        decided_by: None,
        decided_at: None,
        decision_note: None,
        expires_at: None,
        share_link_id: None,
        created_at: 0,
    }
}

fn order(state: &str, assets: &[u128]) -> Option<Order> {
    let items = assets.iter().map(|id| Item { asset_id: *id, filename: format!("{id}.jpg") }).collect();
    Some(into_order(order_row(1, state), items))
}

fn asking_for(asset_ids: &[u128]) -> NewOrder {
    NewOrder {
        requested_by: 7,
        purpose: "  press ".to_owned(),
        channel: None,
        territory: None,
        conversion_key: None,
        include_metadata: false,
        recipients: vec![],
        asset_ids: asset_ids.to_vec(),
    }
}

#[test]
fn an_order_keeps_what_the_requester_may_see() {
    assert_eq!(place(&asking_for(&[3, 1, 2]), &vec![2, 3]), Ok(vec![3, 2]));
    assert_eq!(place(&asking_for(&[]), &vec![]), Err(OrderRefusal::Empty));
    assert_eq!(place(&asking_for(&[3]), &vec![]), Err(OrderRefusal::NothingVisible));
    assert_eq!(place(&asking_for(&[3]), &vec![4]), Err(OrderRefusal::NothingVisible));
    assert_eq!(place(&asking_for(&[5, 3, 5, 9, 3, 1]), &vec![1, 3, 5]), Ok(vec![5, 3, 1]));
    assert_eq!(purpose(&asking_for(&[])), "press");
}

#[test]
fn an_order_just_placed_reads_as_it_was_asked() {
    let ids = |order: &Order| order.items.iter().map(|item| item.asset_id).collect::<Vec<u128>>();
    let shown = orders::placed(1, order("submitted", &[1, 3, 5]), &vec![5, 3, 1]).unwrap();
    assert_eq!(ids(&shown), vec![5, 3, 1]);
    assert_eq!(shown.items[0].filename, "5.jpg");
    assert_eq!(Some(Order { items: vec![], ..shown }), order("submitted", &[]));
    // An asset that is gone leaves no hole, and nothing stored is lost.
    let shown = orders::placed(1, order("submitted", &[1, 3, 9]), &vec![5, 3, 1]).unwrap();
    assert_eq!(ids(&shown), vec![3, 1, 9]);
    assert_eq!(orders::placed(2, None, &vec![1]), Err(OrderRefusal::Unknown(2)));
}

/// The days an approval keeps the pickup open.
fn days(approved: Result<Command, OrderRefusal>) -> i32 {
    match approved.unwrap().values.pop() {
        Some(Value::Whole(days)) => days,
        other => panic!("{other:?}"),
    }
}

#[test]
fn an_approver_judges_only_what_they_see() {
    assert_eq!(days(approve(1, &order("submitted", &[3, 4]), &vec![4, 3], 14, 9, None, 5)), 14);
    assert_eq!(days(approve(1, &order("submitted", &[3, 4]), &vec![4, 3], 0, 9, None, 5)), 1);
    assert_eq!(days(approve(1, &order("submitted", &[3, 4]), &vec![4, 3], 4000, 9, None, 5)), 365);
    assert_eq!(
        approve(1, &order("submitted", &[3, 4, 5]), &vec![4], 14, 9, None, 5).unwrap_err().message(),
        "2 of the assets in this order are outside your scope, so you cannot judge it"
    );
    assert_eq!(
        approve(1, &order("ready", &[3]), &vec![3], 14, 9, None, 5).unwrap_err().message(),
        "order ORD-000123 is ready, so it cannot be approved"
    );
    assert_eq!(approve(1, &None, &vec![], 14, 9, None, 5), Err(OrderRefusal::Unknown(1)));
}

#[test]
fn an_order_is_decided_once() {
    assert!(reject(1, &order("submitted", &[3]), 9, None, 5).is_ok());
    assert_eq!(
        reject(1, &order("approved", &[3]), 9, None, 5).unwrap_err().message(),
        "order ORD-000123 is approved, so it cannot be rejected"
    );
    assert_eq!(reject(1, &None, 9, None, 5), Err(OrderRefusal::Unknown(1)));
    assert!(cancel(1, &order("submitted", &[3]), 7).is_ok());
    assert_eq!(
        cancel(1, &order("submitted", &[3]), 8).unwrap_err().message(),
        "only the person who asked for an order may cancel it"
    );
    assert_eq!(cancel(1, &order("approved", &[3]), 8), Err(OrderRefusal::NotYours));
    assert!(matches!(
        cancel(1, &order("approved", &[3]), 7),
        Err(OrderRefusal::WrongState(_, state, "cancelled")) if state == "approved"
    ));
    assert!(mark_ready(1, &order("approved", &[3]), 77).is_ok());
    assert!(matches!(mark_ready(1, &order("submitted", &[3]), 77), Err(OrderRefusal::WrongState(_, _, "made ready"))));
    assert!(mark_collected(1, &order("ready", &[])).is_some() && mark_collected(1, &order("collected", &[])).is_some());
    assert!(mark_collected(1, &order("approved", &[])).is_none() && mark_collected(1, &None).is_none());
    assert_eq!(orders::present(2, None).unwrap_err().message(), "no order 00000000-0000-0000-0000-000000000002");
    assert_eq!(OrderRefusal::Empty.message(), "an order needs at least one asset");
    assert_eq!(OrderRefusal::NothingVisible.message(), "none of those assets exist for this caller");
}

#[test]
fn expiry_is_derived_and_self_approval_reported() {
    let mut found = order("ready", &[]).unwrap();
    assert!(!found.is_expired(i64::MAX));
    found.expires_at = Some(10);
    assert!(!found.is_expired(9) && found.is_expired(10) && found.is_expired(11));
    assert!(!found.self_approved());
    found.decided_by = Some(7);
    assert!(found.self_approved());
    found.decided_by = Some(8);
    assert!(!found.self_approved());
    assert_eq!((list_limit(0), list_limit(20), list_limit(9000)), (1, 20, 200));
}

#[test]
fn items_go_to_their_own_order() {
    let item = |order_id: u128, asset_id: u128| ItemRow { order_id, asset_id, filename: format!("{asset_id}") };
    let all = vec![item(1, 5), item(2, 6), item(1, 7)];
    let found = with_items(vec![order_row(2, "ready"), order_row(1, "ready"), order_row(3, "ready")], &all);
    let assets: Vec<Vec<u128>> =
        found.iter().map(|order| order.items.iter().map(|item| item.asset_id).collect()).collect();
    assert_eq!(assets, vec![vec![6], vec![5, 7], vec![]]);
}

// ---- comments ---------------------------------------------------------------------------------------

fn comment_row(id: u128, parent_id: Option<u128>) -> CommentRow {
    CommentRow {
        id,
        asset_id: 5,
        author_id: 7,
        body: "words".to_owned(),
        visibility: "public".to_owned(),
        status: "open".to_owned(),
        parent_id,
        status_by: None,
        created_at: 0,
        edited_at: None,
    }
}

fn comment(id: u128, parent_id: Option<u128>) -> Option<Comment> {
    Some(comments::comment(comment_row(id, parent_id), vec![]).unwrap())
}

fn new_comment(body: &str, visibility: Visibility, recipients: &[u128], parent_id: Option<u128>) -> NewComment {
    NewComment {
        asset_id: 5,
        author_id: 7,
        body: body.to_owned(),
        visibility,
        recipients: recipients.to_vec(),
        parent_id,
    }
}

#[test]
fn a_comment_is_checked_before_it_is_posted() {
    let public = |parent: Option<u128>| new_comment("words", Visibility::Public, &[], parent);
    assert!(comments::post(1, &public(None), Some(5), &None).is_ok());
    assert!(comments::post(1, &new_comment("words", Visibility::Private, &[9], None), Some(5), &None).is_ok());
    assert_eq!(
        comments::post(1, &new_comment("", Visibility::Private, &[], None), None, &None).unwrap_err().message(),
        "a comment needs between 1 and 10000 characters; this one has 0"
    );
    let long = "\u{e9}".repeat(MAX_BODY_CHARS + 1);
    assert_eq!(
        comments::post(1, &new_comment(&long, Visibility::Public, &[], None), Some(5), &None),
        Err(CommentRefusal::BadLength(MAX_BODY_CHARS + 1))
    );
    let longest = "\u{e9}".repeat(MAX_BODY_CHARS);
    assert!(comments::post(1, &new_comment(&longest, Visibility::Public, &[], None), Some(5), &None).is_ok());
    assert_eq!(
        comments::post(1, &new_comment("words", Visibility::Private, &[], None), None, &None).unwrap_err().message(),
        "a private comment needs at least one recipient, or nobody but you will see it"
    );
    assert_eq!(
        comments::post(1, &public(None), None, &None).unwrap_err().message(),
        "no asset 00000000-0000-0000-0000-000000000005"
    );
}

#[test]
fn a_reply_answers_a_comment_on_the_same_asset() {
    let reply = new_comment("words", Visibility::Public, &[], Some(3));
    assert!(comments::post(1, &reply, Some(5), &comment(3, None)).is_ok());
    assert_eq!(comments::post(1, &reply, Some(5), &None), Err(CommentRefusal::UnknownComment(3)));
    assert_eq!(
        comments::post(1, &reply, Some(5), &comment(3, Some(2))).unwrap_err().message(),
        "a reply cannot itself be replied to; reply to the comment it is under"
    );
    let mut elsewhere = comment(3, None).unwrap();
    elsewhere.asset_id = 6;
    assert_eq!(
        comments::post(1, &reply, Some(5), &Some(elsewhere)).unwrap_err().message(),
        "no comment 00000000-0000-0000-0000-000000000003"
    );
}

#[test]
fn only_the_author_changes_a_comment() {
    assert!(comments::amend(3, &comment(3, None), 7, "other words").is_ok());
    assert_eq!(
        comments::amend(3, &comment(3, None), 8, "other words").unwrap_err().message(),
        "only the author can change the words of a comment"
    );
    assert_eq!(comments::amend(3, &None, 8, "other words"), Err(CommentRefusal::UnknownComment(3)));
    assert_eq!(comments::amend(3, &None, 8, ""), Err(CommentRefusal::BadLength(0)));
    assert!(comments::remove(3, &comment(3, None), 7).is_ok());
    assert_eq!(comments::remove(3, &comment(3, None), 8), Err(CommentRefusal::NotYours));
    assert_eq!(comments::remove(3, &None, 7), Err(CommentRefusal::UnknownComment(3)));
    assert!(comments::found(3, comment(3, None)).is_ok());
    assert_eq!(comments::found(3, None), Err(CommentRefusal::UnknownComment(3)));
    assert!(comments::check_asset(5, Some(5)).is_ok());
}

#[test]
fn a_thread_routes_each_comment() {
    let rows = vec![comment_row(1, None), comment_row(2, Some(1))];
    let read = comments::thread(rows, &vec![(2, 30), (1, 10), (2, 20)]).unwrap();
    assert_eq!(read[0].recipients, vec![10]);
    assert_eq!(read[1].recipients, vec![30, 20]);
    let odd = CommentRow { visibility: "hidden".to_owned(), ..comment_row(1, None) };
    assert_eq!(
        comments::thread(vec![comment_row(2, None), odd], &vec![]),
        Err(Error::Migrate("unknown comment visibility \"hidden\"".to_owned()))
    );
    let odd = CommentRow { status: "shut".to_owned(), ..comment_row(1, None) };
    assert_eq!(
        comments::comment(odd, vec![]),
        Err(Error::Migrate("unknown comment status \"shut\"".to_owned()))
    );
    for visibility in [Visibility::Public, Visibility::Private] {
        assert_eq!(Visibility::parse(visibility.as_str()), Some(visibility));
    }
    for status in [Status::Open, Status::Resolved, Status::Approved, Status::ChangesRequested] {
        assert_eq!(Status::parse(status.as_str()), Some(status));
    }
}

// ---- engagement -------------------------------------------------------------------------------------

#[test]
fn stars_are_one_to_five() {
    for stars in 1..=5 {
        assert!(engagement::check_stars(stars).is_ok());
    }
    assert_eq!(
        engagement::check_stars(0).unwrap_err().message(),
        "a rating is 1 to 5 stars; 0 is not"
    );
    assert_eq!(engagement::check_stars(-6).unwrap_err().message(), "a rating is 1 to 5 stars; -6 is not");
    assert_eq!(engagement::check_stars(6), Err(EngagementRefusal::OutOfRange(6)));
    assert!(engagement::check_visible(4, Some(4)).is_ok());
    assert_eq!(
        engagement::check_visible(4, None).unwrap_err().message(),
        "no asset 00000000-0000-0000-0000-000000000004"
    );
    assert_eq!((List::Favourites.table(), List::Watches.table()), ("asset_favourites", "asset_watches"));
}

#[test]
fn answers_come_in_the_order_asked() {
    assert_eq!(engagement::ordered(&vec![5, 3, 9, 5], &vec![3, 5, 7]), vec![1, 0, 1]);
    assert!(engagement::ordered(&vec![1], &vec![]).is_empty());
}

// ---- proofing ---------------------------------------------------------------------------------------

fn new_round(assets: &[u128], asked: &[u128], supersedes: Option<u128>) -> NewRound<'static> {
    NewRound {
        title: " Spring ",
        brief: " check the logo",
        asset_ids: assets.to_vec(),
        reviewer_ids: asked.to_vec(),
        due_at: None,
        requested_by: None,
        supersedes,
    }
}

#[test]
fn a_round_is_opened_whole_or_not_at_all() {
    let opened = proofing::open(&new_round(&[4, 3], &[9], None), &vec![3, 4], None).unwrap();
    assert_eq!((opened.title.as_str(), opened.brief.as_str(), opened.number), ("Spring", "check the logo", 1));
    assert_eq!(opened.assets, vec![(4, 0), (3, 1)]);
    // What decides is which assets are visible, not how many.
    assert_eq!(
        proofing::open(&new_round(&[4, 3], &[9], None), &vec![4, 7, 8], None),
        Err(ProofRefusal::AssetsOutOfScope(1))
    );
    assert!(proofing::open(&new_round(&[4, 3], &[9], None), &vec![7, 4, 3], None).is_ok());
    let second = proofing::open(&new_round(&[4], &[9], Some(2)), &vec![4], Some(1)).unwrap();
    assert_eq!(second.number, 2);
    assert_eq!(
        proofing::open(&new_round(&[4], &[9], Some(2)), &vec![4], None).unwrap_err().message(),
        "no round 00000000-0000-0000-0000-000000000002"
    );
    assert_eq!(
        proofing::open(&new_round(&[4, 3, 2], &[9], None), &vec![4], None).unwrap_err().message(),
        "2 of the assets are not ones you can see; a round cannot be narrowed silently"
    );
    assert_eq!(
        proofing::open(&new_round(&[], &[], None), &vec![], None).unwrap_err().message(),
        "a round needs at least one asset"
    );
    assert_eq!(proofing::open(&new_round(&[4], &[], None), &vec![4], None), Err(ProofRefusal::NoReviewers));
}

#[test]
fn a_request_for_changes_beats_any_number_of_approvals() {
    assert_eq!(decide_outcome(false, 0, 0), Outcome::Approved);
    assert_eq!(decide_outcome(false, 1, 0), Outcome::Open);
    assert_eq!(decide_outcome(false, 3, 1), Outcome::ChangesRequested);
    assert_eq!(decide_outcome(false, 0, 1), Outcome::ChangesRequested);
    assert_eq!(decide_outcome(true, 3, 1), Outcome::Cancelled);
    assert!(!Outcome::Open.is_closed());
    for outcome in [Outcome::Approved, Outcome::ChangesRequested, Outcome::Cancelled] {
        assert!(outcome.is_closed());
    }
    assert_eq!(Outcome::ChangesRequested.as_str(), "changes_requested");
}

#[test]
fn a_verdict_lands_on_an_open_round() {
    assert!(check_open(1, Some(false)).is_ok());
    assert_eq!(
        check_open(1, Some(true)).unwrap_err().message(),
        "this round is already closed; a further review is a new round"
    );
    assert_eq!(check_open(1, None), Err(ProofRefusal::UnknownRound(1)));
    assert_eq!(decide(9, 1, Some((false, 0, 0))), Ok(Outcome::Approved));
    assert_eq!(decide(9, 1, Some((false, 2, 0))), Ok(Outcome::Open));
    assert_eq!(decide(9, 1, None), Ok(Outcome::Cancelled));
    assert_eq!(decide(9, 0, Some((false, 0, 0))), Err(ProofRefusal::NotAReviewer(9)));
    assert_eq!(decision("approved"), Ok(Verdict::Approved));
    assert_eq!(
        decision("pending").unwrap_err().message(),
        "\"pending\" is not a verdict; use approved or changes_requested"
    );
    assert_eq!(decision("maybe"), Err(ProofRefusal::NotAVerdict("maybe".to_owned())));
    assert_eq!(Verdict::parse("pending"), Some(Verdict::Pending));
    assert_eq!(Verdict::parse_decision("changes_requested"), Some(Verdict::ChangesRequested));
    assert_eq!(stored_note(" fine\n"), "fine");
}

#[test]
fn a_withdrawn_round_keeps_when_it_closed() {
    let ending = |closed_at: Option<i64>, cancelled_at: Option<i64>| Some(Ending { closed_at, cancelled_at });
    assert_eq!(proofing::cancel(ending(None, None), 9), ending(Some(9), Some(9)));
    assert_eq!(proofing::cancel(ending(Some(4), None), 9), ending(Some(4), Some(9)));
    assert_eq!(proofing::cancel(ending(Some(4), Some(5)), 9), None);
    assert_eq!(proofing::cancel(None, 9), None);
}

#[test]
fn a_round_reads_its_outcome_from_its_verdicts() {
    let row = |cancelled_at: Option<i64>| RoundRow {
        id: 1,
        title: "Spring".to_owned(),
        brief: String::new(),
        number: 1,
        supersedes: None,
        due_at: None,
        requested_by: None,
        created_at: 0,
        closed_at: None,
        cancelled_at,
    };
    let answer = |identity_id: u128, verdict: &str| ReviewerRow {
        identity_id,
        verdict: verdict.to_owned(),
        note: String::new(),
        decided_at: None,
    };
    let read = hydrate(row(None), vec![answer(1, "approved"), answer(2, "pending")], 3).unwrap();
    assert_eq!((read.outcome, read.asset_count, read.reviewers.len()), (Outcome::Open, 3, 2));
    let read = hydrate(row(None), vec![answer(1, "approved"), answer(2, "changes_requested")], 3).unwrap();
    assert_eq!(read.outcome, Outcome::ChangesRequested);
    assert_eq!(hydrate(row(Some(4)), vec![answer(1, "approved")], 3).unwrap().outcome, Outcome::Cancelled);
    assert_eq!(
        hydrate(row(None), vec![answer(1, "approved"), answer(2, "fine")], 3),
        Err(Error::Migrate("unknown proofing verdict \"fine\"".to_owned()))
    );
    assert!(may_read(&vec![1, 2], &vec![2, 1]));
    assert!(!may_read(&vec![1, 2], &vec![2]) && !may_read(&vec![], &vec![]));
    assert!(!may_read(&vec![1, 2], &vec![2, 3]));
    assert_eq!(asset_count(&vec![1, 2]), 2);
    assert_eq!((proofing::list_limit(0), proofing::list_limit(500)), (1, 200));
}
