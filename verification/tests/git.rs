use promptline::segments::git::head::{get_head_branch, Answer, BranchFacts, Query, Resolver};
use promptline::segments::git::{
    get_statuses, EntryStatus, GitInner, RepoError, RepoState, Statuses, Upstream,
};
use promptline::segments::{Git, Segment};
use promptline::ColoredStream;

const SEPARATOR: &str = "\u{e0b0}";

fn fg(r: u8, g: u8, b: u8) -> String {
    format!("\x01\x1b[38;2;{};{};{}m\x02", r, g, b)
}

fn bg(r: u8, g: u8, b: u8) -> String {
    format!("\x01\x1b[48;2;{};{};{}m\x02", r, g, b)
}

fn rendered<S: Segment>(mut segment: S) -> String {
    let mut stream = ColoredStream::new(Vec::new());
    stream.write_segment(&mut segment).unwrap();
    String::from_utf8(stream.into_inner()).unwrap()
}

fn no_changes() -> Statuses {
    Statuses { staged: 0, not_staged: 0, untracked: 0, conflicted: 0 }
}

fn git(state: Result<RepoState, RepoError>, statuses: Result<Statuses, RepoError>) -> Git {
    Git::new(Some(GitInner { state, statuses }))
}

fn on_branch(name: &str, upstream: Option<Upstream>) -> RepoState {
    RepoState::OnBranch { name: name.to_owned(), upstream }
}

fn facts(name: Option<&str>, has_target: bool, tracks: bool) -> Answer {
    Answer::Branch(BranchFacts { name: name.map(str::to_owned), has_target, tracks })
}

/// Runs the search against the answers, which must be asked for in this
/// order, and gives what it found.
fn resolve(script: Vec<(Query, Answer)>) -> Result<RepoState, RepoError> {
    let mut resolver = Resolver::new();
    for (expected, answer) in script {
        let query = resolver.query().unwrap();
        assert!(same_query(&query, &expected));
        resolver = resolver.advance(answer);
    }
    assert!(resolver.query().is_none());
    resolver.outcome().unwrap()
}

fn same_query(a: &Query, b: &Query) -> bool {
    match (a, b) {
        (Query::HeadDetached, Query::HeadDetached) => true,
        (Query::HeadShortId, Query::HeadShortId) => true,
        (Query::LocalBranches, Query::LocalBranches) => true,
        (Query::Branch(i), Query::Branch(j)) => i == j,
        (Query::Divergence, Query::Divergence) => true,
        _ => false,
    }
}

fn is_on_branch(state: &Result<RepoState, RepoError>, name: &str, upstream: Option<(u8, u8)>) -> bool {
    match state {
        Ok(RepoState::OnBranch { name: shown, upstream: found }) => {
            shown == name && found.map(|u| (u.get_ahead(), u.get_behind())) == upstream
        }
        _ => false,
    }
}

fn is_error(state: &Result<RepoState, RepoError>, error: RepoError) -> bool {
    matches!(state, Err(found) if *found == error)
}

fn entry() -> EntryStatus {
    EntryStatus::unchanged()
}

#[test]
fn an_untracked_file_is_counted_once() {
    let entries = vec![EntryStatus { wt_new: true, ..entry() }];
    assert_eq!(
        get_statuses(&entries),
        Statuses { staged: 0, not_staged: 0, untracked: 1, conflicted: 0 }
    );
}

#[test]
fn a_file_staged_and_changed_again_is_counted_twice() {
    let entries = vec![EntryStatus { index_modified: true, wt_modified: true, ..entry() }];
    assert_eq!(
        get_statuses(&entries),
        Statuses { staged: 1, not_staged: 1, untracked: 0, conflicted: 0 }
    );
}

#[test]
fn a_clean_working_tree_counts_nothing() {
    assert_eq!(get_statuses(&Vec::new()), no_changes());
    assert_eq!(get_statuses(&vec![entry(), entry()]), no_changes());
}

#[test]
fn every_kind_of_change_is_counted_under_its_heading() {
    let staged = [
        EntryStatus { index_new: true, ..entry() },
        EntryStatus { index_modified: true, ..entry() },
        EntryStatus { index_deleted: true, ..entry() },
        EntryStatus { index_renamed: true, ..entry() },
        EntryStatus { index_typechange: true, ..entry() },
    ];
    for one in staged {
        assert_eq!(
            get_statuses(&vec![one]),
            Statuses { staged: 1, not_staged: 0, untracked: 0, conflicted: 0 }
        );
    }
    let not_staged = [
        EntryStatus { wt_modified: true, ..entry() },
        EntryStatus { wt_deleted: true, ..entry() },
        EntryStatus { wt_typechange: true, ..entry() },
    ];
    for one in not_staged {
        assert_eq!(
            get_statuses(&vec![one]),
            Statuses { staged: 0, not_staged: 1, untracked: 0, conflicted: 0 }
        );
    }
    assert_eq!(
        get_statuses(&vec![EntryStatus { conflicted: true, ..entry() }]),
        Statuses { staged: 0, not_staged: 0, untracked: 0, conflicted: 1 }
    );
}

#[test]
fn a_path_with_several_staged_changes_is_staged_once() {
    let entries = vec![EntryStatus { index_renamed: true, index_modified: true, ..entry() }];
    assert_eq!(
        get_statuses(&entries),
        Statuses { staged: 1, not_staged: 0, untracked: 0, conflicted: 0 }
    );
}

#[test]
fn many_paths_are_counted_each_way() {
    let mut entries = Vec::new();
    for i in 0..300 {
        entries.push(EntryStatus {
            index_new: i % 2 == 0,
            wt_deleted: i % 3 == 0,
            wt_new: i % 5 == 0,
            conflicted: i % 7 == 0,
            ..entry()
        });
    }
    assert_eq!(
        get_statuses(&entries),
        Statuses { staged: 150, not_staged: 100, untracked: 60, conflicted: 43 }
    );
}

#[test]
fn the_head_branch_is_the_first_that_is_checked_out() {
    assert_eq!(get_head_branch(&vec![]), Ok(None));
    assert_eq!(get_head_branch(&vec![Some(false), Some(false)]), Ok(None));
    assert_eq!(get_head_branch(&vec![Some(true)]), Ok(Some(0)));
    assert_eq!(get_head_branch(&vec![Some(false), Some(true), Some(true)]), Ok(Some(1)));
}

#[test]
fn an_entry_that_cannot_be_read_matters_only_before_the_head_branch() {
    assert_eq!(get_head_branch(&vec![Some(false), Some(true), None]), Ok(Some(1)));
    assert_eq!(get_head_branch(&vec![Some(false), None, Some(true)]), Err(RepoError::QueryFailed));
    assert_eq!(get_head_branch(&vec![None]), Err(RepoError::QueryFailed));
}

#[test]
fn a_detached_head_is_known_by_its_commit() {
    let state = resolve(vec![
        (Query::HeadDetached, Answer::HeadDetached(true)),
        (Query::HeadShortId, Answer::HeadShortId("1a2b3c4".to_owned())),
    ]);
    assert!(matches!(state, Ok(RepoState::Detached(id)) if id == "1a2b3c4"));
}

#[test]
fn a_repository_without_branches_is_empty() {
    let state = resolve(vec![
        (Query::HeadDetached, Answer::HeadDetached(false)),
        (Query::LocalBranches, Answer::LocalBranches(vec![])),
    ]);
    assert!(matches!(state, Ok(RepoState::Empty)));
}

#[test]
fn a_repository_with_no_branch_checked_out_is_empty() {
    let state = resolve(vec![
        (Query::HeadDetached, Answer::HeadDetached(false)),
        (Query::LocalBranches, Answer::LocalBranches(vec![Some(false), Some(false)])),
    ]);
    assert!(matches!(state, Ok(RepoState::Empty)));
}

#[test]
fn a_branch_that_tracks_nothing_has_no_upstream() {
    let state = resolve(vec![
        (Query::HeadDetached, Answer::HeadDetached(false)),
        (Query::LocalBranches, Answer::LocalBranches(vec![Some(false), Some(true)])),
        (Query::Branch(1), facts(Some("main"), true, false)),
    ]);
    assert!(is_on_branch(&state, "main", None));
}

#[test]
fn a_branch_that_is_level_with_what_it_tracks_is_zero_both_ways() {
    let state = resolve(vec![
        (Query::HeadDetached, Answer::HeadDetached(false)),
        (Query::LocalBranches, Answer::LocalBranches(vec![Some(true)])),
        (Query::Branch(0), facts(Some("main"), true, true)),
        (Query::Divergence, Answer::Divergence { ahead: 0, behind: 0 }),
    ]);
    assert!(is_on_branch(&state, "main", Some((0, 0))));
}

#[test]
fn a_branch_that_has_moved_away_from_what_it_tracks() {
    let state = resolve(vec![
        (Query::HeadDetached, Answer::HeadDetached(false)),
        (Query::LocalBranches, Answer::LocalBranches(vec![Some(true)])),
        (Query::Branch(0), facts(Some("topic"), true, true)),
        (Query::Divergence, Answer::Divergence { ahead: 3, behind: 98 }),
    ]);
    assert!(is_on_branch(&state, "topic", Some((3, 98))));
}

#[test]
fn counts_are_held_at_the_ceiling() {
    let state = resolve(vec![
        (Query::HeadDetached, Answer::HeadDetached(false)),
        (Query::LocalBranches, Answer::LocalBranches(vec![Some(true)])),
        (Query::Branch(0), facts(Some("topic"), true, true)),
        (Query::Divergence, Answer::Divergence { ahead: 99, behind: 300 }),
    ]);
    assert!(is_on_branch(&state, "topic", Some((99, 99))));
    let upstream = Upstream::new(usize::MAX, 98);
    assert_eq!((upstream.get_ahead(), upstream.get_behind()), (99, 98));
    assert_eq!(Upstream::new(256, 0), Upstream::new(99, 0));
}

#[test]
fn a_question_without_an_answer_ends_the_search() {
    let failed = |state: Result<RepoState, RepoError>| is_error(&state, RepoError::QueryFailed);
    assert!(failed(resolve(vec![(Query::HeadDetached, Answer::Failed)])));
    assert!(failed(resolve(vec![
        (Query::HeadDetached, Answer::HeadDetached(true)),
        (Query::HeadShortId, Answer::Failed),
    ])));
    assert!(failed(resolve(vec![
        (Query::HeadDetached, Answer::HeadDetached(false)),
        (Query::LocalBranches, Answer::Failed),
    ])));
    assert!(failed(resolve(vec![
        (Query::HeadDetached, Answer::HeadDetached(false)),
        (Query::LocalBranches, Answer::LocalBranches(vec![None, Some(true)])),
    ])));
    assert!(failed(resolve(vec![
        (Query::HeadDetached, Answer::HeadDetached(false)),
        (Query::LocalBranches, Answer::LocalBranches(vec![Some(true)])),
        (Query::Branch(0), Answer::Failed),
    ])));
    assert!(failed(resolve(vec![
        (Query::HeadDetached, Answer::HeadDetached(false)),
        (Query::LocalBranches, Answer::LocalBranches(vec![Some(true)])),
        (Query::Branch(0), facts(Some("main"), true, true)),
        (Query::Divergence, Answer::Failed),
    ])));
}

#[test]
fn a_branch_without_a_name_is_an_error() {
    let state = resolve(vec![
        (Query::HeadDetached, Answer::HeadDetached(false)),
        (Query::LocalBranches, Answer::LocalBranches(vec![Some(true)])),
        (Query::Branch(0), facts(None, true, false)),
    ]);
    assert!(is_error(&state, RepoError::QueryFailed));
    let state = resolve(vec![
        (Query::HeadDetached, Answer::HeadDetached(false)),
        (Query::LocalBranches, Answer::LocalBranches(vec![Some(true)])),
        (Query::Branch(0), facts(None, true, true)),
        (Query::Divergence, Answer::Divergence { ahead: 0, behind: 0 }),
    ]);
    assert!(is_error(&state, RepoError::QueryFailed));
}

#[test]
fn a_branch_that_points_at_nothing_is_an_error() {
    let state = resolve(vec![
        (Query::HeadDetached, Answer::HeadDetached(false)),
        (Query::LocalBranches, Answer::LocalBranches(vec![Some(true)])),
        (Query::Branch(0), facts(Some("main"), false, true)),
    ]);
    assert!(is_error(&state, RepoError::TargetNotFound));
}

#[test]
fn an_answer_to_another_question_is_an_error() {
    let state = resolve(vec![(Query::HeadDetached, Answer::HeadShortId("abc".to_owned()))]);
    assert!(is_error(&state, RepoError::UnexpectedAnswer));
    let state = resolve(vec![
        (Query::HeadDetached, Answer::HeadDetached(true)),
        (Query::HeadShortId, Answer::HeadDetached(true)),
    ]);
    assert!(is_error(&state, RepoError::UnexpectedAnswer));
    let state = resolve(vec![
        (Query::HeadDetached, Answer::HeadDetached(false)),
        (Query::LocalBranches, Answer::Divergence { ahead: 1, behind: 1 }),
    ]);
    assert!(is_error(&state, RepoError::UnexpectedAnswer));
}

#[test]
fn a_search_that_is_over_stays_over() {
    let resolver = Resolver::new().advance(Answer::Failed);
    assert!(resolver.query().is_none());
    let resolver = resolver.advance(Answer::HeadDetached(true));
    assert!(resolver.query().is_none());
    assert!(is_error(&resolver.outcome().unwrap(), RepoError::QueryFailed));
}

#[test]
fn a_search_that_is_not_over_has_found_nothing() {
    assert!(Resolver::new().outcome().is_none());
    assert!(Resolver::new().advance(Answer::HeadDetached(false)).outcome().is_none());
}

#[test]
fn a_repository_that_was_not_found_shows_the_broken_badge() {
    assert_eq!(rendered(Git::new(None)), bg(255, 0, 0) + " \u{2620} ");
}

#[test]
fn an_empty_repository_shows_no_commits_and_no_badges() {
    let expected = bg(255, 255, 255) + &fg(0, 0, 0) + " \u{2205}  no commits ";
    assert_eq!(rendered(git(Ok(RepoState::Empty), Ok(no_changes()))), expected);
}

#[test]
fn a_detached_head_shows_its_commit() {
    let state = RepoState::Detached("1a2b3c4".to_owned());
    let expected = bg(0, 0, 180) + &fg(230, 230, 230) + " \u{1f4e4} 1a2b3c4 ";
    assert_eq!(rendered(git(Ok(state), Ok(no_changes()))), expected);
}

#[test]
fn a_branch_shows_its_name() {
    let expected = bg(30, 180, 30) + &fg(0, 0, 0) + " \u{2b60} main ";
    assert_eq!(rendered(git(Ok(on_branch("main", None)), Ok(no_changes()))), expected);
}

#[test]
fn a_branch_that_is_level_shows_zeros_on_near_black() {
    let expected = bg(30, 180, 30) + &fg(0, 0, 0) + " \u{2b60} main " + &fg(30, 180, 30)
        + &bg(30, 30, 30) + SEPARATOR + &fg(230, 230, 230) + " 0\u{1f53a} 0\u{1f53b}";
    let state = on_branch("main", Some(Upstream::new(0, 0)));
    assert_eq!(rendered(git(Ok(state), Ok(no_changes()))), expected);
}

#[test]
fn a_branch_that_is_ahead_shows_purple() {
    let expected = bg(30, 180, 30) + &fg(0, 0, 0) + " \u{2b60} main " + &fg(30, 180, 30)
        + &bg(120, 30, 120) + SEPARATOR + &fg(230, 230, 230) + " 2\u{1f53a} 0\u{1f53b}";
    let state = on_branch("main", Some(Upstream::new(2, 0)));
    assert_eq!(rendered(git(Ok(state), Ok(no_changes()))), expected);
}

#[test]
fn a_branch_that_is_behind_shows_red_whether_it_is_ahead_or_not() {
    let state = on_branch("main", Some(Upstream::new(0, 5)));
    let expected = bg(30, 180, 30) + &fg(0, 0, 0) + " \u{2b60} main " + &fg(30, 180, 30)
        + &bg(120, 30, 30) + SEPARATOR + &fg(230, 230, 230) + " 0\u{1f53a} 5\u{1f53b}";
    assert_eq!(rendered(git(Ok(state), Ok(no_changes()))), expected);
    let state = on_branch("main", Some(Upstream::new(150, 98)));
    let expected = bg(30, 180, 30) + &fg(0, 0, 0) + " \u{2b60} main " + &fg(30, 180, 30)
        + &bg(120, 30, 30) + SEPARATOR + &fg(230, 230, 230) + " 99+\u{1f53a} 98\u{1f53b}";
    assert_eq!(rendered(git(Ok(state), Ok(no_changes()))), expected);
}

#[test]
fn changes_are_shown_in_a_segment_of_their_own() {
    let statuses = Statuses { staged: 1, not_staged: 20, untracked: 98, conflicted: 4 };
    let expected = bg(30, 180, 30) + &fg(0, 0, 0) + " \u{2b60} main " + &fg(30, 180, 30)
        + &bg(200, 200, 200) + SEPARATOR + &fg(0, 0, 0) + " 1\u{2713} " + &fg(0, 0, 0) + " 20* "
        + &fg(0, 0, 0) + " 98\u{207a} " + &fg(0, 0, 0) + " 4\u{1f494} ";
    assert_eq!(rendered(git(Ok(on_branch("main", None)), Ok(statuses))), expected);
}

#[test]
fn only_the_counts_above_zero_are_shown() {
    let statuses = Statuses { staged: 0, not_staged: 0, untracked: 1, conflicted: 0 };
    let expected = bg(255, 255, 255) + &fg(0, 0, 0) + " \u{2205}  no commits "
        + &fg(255, 255, 255) + &bg(200, 200, 200) + SEPARATOR + &fg(0, 0, 0) + " 1\u{207a} ";
    assert_eq!(rendered(git(Ok(RepoState::Empty), Ok(statuses))), expected);
}

#[test]
fn counts_from_the_ceiling_on_are_shown_as_ninety_nine_and_more() {
    let statuses = Statuses { staged: 99, not_staged: 100, untracked: usize::MAX, conflicted: 98 };
    let expected = bg(255, 255, 255) + &fg(0, 0, 0) + " \u{2205}  no commits "
        + &fg(255, 255, 255) + &bg(200, 200, 200) + SEPARATOR + &fg(0, 0, 0) + " 99+\u{2713} "
        + &fg(0, 0, 0) + " 99+* " + &fg(0, 0, 0) + " 99+\u{207a} " + &fg(0, 0, 0)
        + " 98\u{1f494} ";
    assert_eq!(rendered(git(Ok(RepoState::Empty), Ok(statuses))), expected);
}

#[test]
fn statuses_are_a_segment_by_themselves() {
    assert_eq!(rendered(no_changes()), "");
    let statuses = Statuses { staged: 2, not_staged: 0, untracked: 0, conflicted: 0 };
    assert_eq!(rendered(statuses), bg(200, 200, 200) + &fg(0, 0, 0) + " 2\u{2713} ");
}

#[test]
fn a_state_that_is_not_known_does_not_hide_the_changes() {
    let statuses = Statuses { staged: 0, not_staged: 3, untracked: 0, conflicted: 0 };
    let expected = bg(255, 0, 0) + " \u{2620} " + &fg(255, 0, 0) + &bg(200, 200, 200) + SEPARATOR
        + &fg(0, 0, 0) + " 3* ";
    assert_eq!(rendered(git(Err(RepoError::QueryFailed), Ok(statuses))), expected);
}

#[test]
fn changes_that_are_not_known_do_not_hide_the_state() {
    let expected = bg(30, 180, 30) + &fg(0, 0, 0) + " \u{2b60} main " + &bg(255, 0, 0)
        + " \u{2620} ";
    assert_eq!(
        rendered(git(Ok(on_branch("main", None)), Err(RepoError::QueryFailed))),
        expected
    );
}

#[test]
fn a_repository_of_which_nothing_is_known_shows_two_badges() {
    let expected = bg(255, 0, 0) + " \u{2620} " + &bg(255, 0, 0) + " \u{2620} ";
    assert_eq!(
        rendered(git(Err(RepoError::TargetNotFound), Err(RepoError::QueryFailed))),
        expected
    );
}
