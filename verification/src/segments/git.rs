//! The state of the repository that the working directory lies in.
//!
//! Two things are shown, and neither depends on the other: where HEAD stands
//! (on a branch, with or without a branch that it tracks; detached; in a
//! repository without commits), and how many paths of the working tree have
//! changed, counted four ways. Where one of the two could not be found out,
//! a badge says so, and the other is shown as it is.

use vstd::prelude::*;
use crate::color::Color;
use crate::colored_stream::{start_of_a_start, stepped, ColoredStream, StreamState};
use crate::segments::Segment;
use crate::sink::ColorableStream;
use crate::wire::{decimal, push_decimal, push_str, utf8};

pub mod head;

verus! {

/// From this count on a badge shows `99+` in place of the number.
pub const COUNT_CEILING: usize = 99;

/// A count as a badge shows it.
pub open spec fn count_text(count: nat) -> Seq<u8> {
    if count < COUNT_CEILING {
        decimal(count)
    } else {
        utf8("99+"@)
    }
}

/// Appends a count as a badge shows it.
pub fn push_count(buf: &mut Vec<u8>, count: usize)
    ensures
        final(buf)@ == old(buf)@ + count_text(count as nat),
{
    if count < COUNT_CEILING {
        push_decimal(buf, count as u32);
    } else {
        push_str(buf, "99+");
    }
}

/// How far a branch and the branch that it tracks are apart. Neither count
/// goes beyond the ceiling: a branch that is further ahead or behind is held
/// at it.
#[derive(Clone, Copy, Debug, PartialEq, Eq, Structural)]
pub struct Upstream {
    ahead: u8,
    behind: u8,
}

/// `count`, held at the ceiling.
pub open spec fn capped(count: nat) -> nat {
    if count < COUNT_CEILING {
        count
    } else {
        COUNT_CEILING as nat
    }
}

impl Upstream {
    /// Commits on the branch that the tracked branch lacks.
    pub closed spec fn ahead(&self) -> nat {
        self.ahead as nat
    }

    /// Commits on the tracked branch that the branch lacks.
    pub closed spec fn behind(&self) -> nat {
        self.behind as nat
    }

    /// Whether the counts are within the ceiling; of every `Upstream` that
    /// [`Upstream::new`] makes they are.
    pub open spec fn wf(&self) -> bool {
        self.ahead() <= COUNT_CEILING && self.behind() <= COUNT_CEILING
    }

    /// The distance `ahead` and `behind`, each held at the ceiling.
    pub closed spec fn capped_at_ceiling(ahead: nat, behind: nat) -> Upstream {
        Upstream { ahead: capped(ahead) as u8, behind: capped(behind) as u8 }
    }

    /// What [`Upstream::capped_at_ceiling`] holds.
    pub proof fn capped_counts(ahead: nat, behind: nat)
        ensures
            Self::capped_at_ceiling(ahead, behind).ahead() == capped(ahead),
            Self::capped_at_ceiling(ahead, behind).behind() == capped(behind),
            Self::capped_at_ceiling(ahead, behind).wf(),
    {
    }

    /// The distance of a branch that is `ahead` commits ahead of the branch
    /// that it tracks and `behind` commits behind it.
    pub fn new(ahead: usize, behind: usize) -> (upstream: Self)
        ensures
            upstream == Self::capped_at_ceiling(ahead as nat, behind as nat),
            upstream.ahead() == capped(ahead as nat),
            upstream.behind() == capped(behind as nat),
            upstream.wf(),
    {
        let ahead: u8 = if ahead < COUNT_CEILING {
            ahead as u8
        } else {
            COUNT_CEILING as u8
        };
        let behind: u8 = if behind < COUNT_CEILING {
            behind as u8
        } else {
            COUNT_CEILING as u8
        };
        Upstream { ahead, behind }
    }

    /// Commits on the branch that the tracked branch lacks, held at the
    /// ceiling.
    pub fn get_ahead(&self) -> (count: u8)
        ensures
            count as nat == self.ahead(),
    {
        self.ahead
    }

    /// Commits on the tracked branch that the branch lacks, held at the
    /// ceiling.
    pub fn get_behind(&self) -> (count: u8)
        ensures
            count as nat == self.behind(),
    {
        self.behind
    }

    /// Dark red where the branch is behind, purple where it is only ahead,
    /// near black where the two are level.
    pub open spec fn background(&self) -> Color {
        if self.behind() > 0 {
            Color { r: 120, g: 30, b: 30 }
        } else if self.ahead() > 0 {
            Color { r: 120, g: 30, b: 120 }
        } else {
            Color { r: 30, g: 30, b: 30 }
        }
    }

    /// The two counts, each with its arrow.
    pub open spec fn text(&self) -> Seq<u8> {
        utf8(" "@) + count_text(self.ahead()) + utf8("🔺 "@) + count_text(self.behind()) + utf8(
            "🔻"@,
        )
    }

    /// What the badge adds to a stream: a segment of its own.
    pub open spec fn rendered(&self, before: StreamState) -> StreamState {
        before.start_segment(self.background()).set_fg(Color { r: 230, g: 230, b: 230 }).write_all(
            self.text(),
        )
    }

    fn write<W: ColorableStream>(&self, w: &mut ColoredStream<W>) -> (r: Result<
        (),
        std::io::Error,
    >)
        ensures
            stepped(*old(w), *final(w), r, self.rendered(old(w)@)),
    {
        if self.behind > 0 {
            w.start_segment(Color::from_rgb(120, 30, 30))?;
        } else if self.ahead > 0 {
            w.start_segment(Color::from_rgb(120, 30, 120))?;
        } else {
            w.start_segment(Color::from_rgb(30, 30, 30))?;
        }
        w.set_fg(Color::from_rgb(230, 230, 230))?;
        let mut text: Vec<u8> = Vec::new();
        push_str(&mut text, " ");
        push_count(&mut text, self.ahead as usize);
        push_str(&mut text, "🔺 ");
        push_count(&mut text, self.behind as usize);
        push_str(&mut text, "🔻");
        w.write_all(text.as_slice())
    }
}

/// Where HEAD stands. A repository is in exactly one of these states.
pub enum RepoState {
    /// HEAD points at a commit and at no branch; the abbreviated id of the
    /// commit.
    Detached(String),
    /// A local branch is checked out. `upstream` is there where the branch
    /// tracks another and that one resolves.
    OnBranch { name: String, upstream: Option<Upstream> },
    /// No branch exists yet.
    Empty,
}

impl RepoState {
    /// Blue for a detached HEAD, green for a branch, white for a repository
    /// without commits.
    pub open spec fn background(&self) -> Color {
        match self {
            RepoState::Detached(_) => Color { r: 0, g: 0, b: 180 },
            RepoState::OnBranch { .. } => Color { r: 30, g: 180, b: 30 },
            RepoState::Empty => Color { r: 255, g: 255, b: 255 },
        }
    }

    /// Near white on blue, black on green and on white.
    pub open spec fn foreground(&self) -> Color {
        match self {
            RepoState::Detached(_) => Color { r: 230, g: 230, b: 230 },
            RepoState::OnBranch { .. } => Color { r: 0, g: 0, b: 0 },
            RepoState::Empty => Color { r: 0, g: 0, b: 0 },
        }
    }

    /// The commit, the branch, or the words that say that there is neither.
    pub open spec fn text(&self) -> Seq<u8> {
        match self {
            RepoState::Detached(short_id) => utf8(" 📤 "@) + utf8(short_id@) + utf8(" "@),
            RepoState::OnBranch { name, .. } => utf8(" ⭠ "@) + utf8(name@) + utf8(" "@),
            RepoState::Empty => utf8(" ∅  no commits "@),
        }
    }

    /// The badges of a state only add to the output.
    pub proof fn keeps_the_output(&self, before: StreamState)
        ensures
            before.out.is_prefix_of(self.rendered(before).out),
    {
    }

    /// The badge of the state and, on a branch that tracks another, the badge
    /// of how far the two are apart.
    pub open spec fn rendered(&self, before: StreamState) -> StreamState {
        let badge = before.set_bg(self.background()).set_fg(self.foreground()).write_all(
            self.text(),
        );
        match self {
            RepoState::OnBranch { upstream: Some(upstream), .. } => upstream.rendered(badge),
            _ => badge,
        }
    }

    fn write<W: ColorableStream>(&self, w: &mut ColoredStream<W>) -> (r: Result<
        (),
        std::io::Error,
    >)
        ensures
            stepped(*old(w), *final(w), r, self.rendered(old(w)@)),
    {
        let mut text: Vec<u8> = Vec::new();
        match self {
            RepoState::Detached(short_id) => {
                w.set_bg(Color::from_rgb(0, 0, 180))?;
                w.set_fg(Color::from_rgb(230, 230, 230))?;
                push_str(&mut text, " 📤 ");
                push_str(&mut text, short_id.as_str());
                push_str(&mut text, " ");
                w.write_all(text.as_slice())
            },
            RepoState::OnBranch { name, upstream } => {
                w.set_bg(Color::from_rgb(30, 180, 30))?;
                w.set_fg(Color::from_rgb(0, 0, 0))?;
                push_str(&mut text, " ⭠ ");
                push_str(&mut text, name.as_str());
                push_str(&mut text, " ");
                w.write_all(text.as_slice())?;
                match upstream {
                    Some(upstream) => upstream.write(w),
                    None => Ok(()),
                }
            },
            RepoState::Empty => {
                w.set_bg(Color::from_rgb(255, 255, 255))?;
                w.set_fg(Color::from_rgb(0, 0, 0))?;
                push_str(&mut text, " ∅  no commits ");
                w.write_all(text.as_slice())
            },
        }
    }
}

/// What is known of one changed path: how the index differs from HEAD, how
/// the working tree differs from the index, and whether the path is in
/// conflict. More than one of these can hold of a path.
#[derive(Clone, Copy, Debug, PartialEq, Eq, Structural)]
pub struct EntryStatus {
    pub index_new: bool,
    pub index_modified: bool,
    pub index_deleted: bool,
    pub index_renamed: bool,
    pub index_typechange: bool,
    pub wt_new: bool,
    pub wt_modified: bool,
    pub wt_deleted: bool,
    pub wt_typechange: bool,
    pub conflicted: bool,
}

impl EntryStatus {
    /// The index holds a change of this path, a rename among them.
    pub open spec fn is_staged(&self) -> bool {
        self.index_new || self.index_modified || self.index_typechange || self.index_renamed
            || self.index_deleted
    }

    /// The working tree holds a change of this path that the index lacks.
    pub open spec fn is_not_staged(&self) -> bool {
        self.wt_modified || self.wt_typechange || self.wt_deleted
    }

    /// The path is in the working tree and not in the index.
    pub open spec fn is_untracked(&self) -> bool {
        self.wt_new
    }

    /// The path is in conflict.
    pub open spec fn is_conflicted(&self) -> bool {
        self.conflicted
    }

    /// A path of which nothing holds.
    pub fn unchanged() -> (entry: Self)
        ensures
            !entry.is_staged(),
            !entry.is_not_staged(),
            !entry.is_untracked(),
            !entry.is_conflicted(),
    {
        EntryStatus {
            index_new: false,
            index_modified: false,
            index_deleted: false,
            index_renamed: false,
            index_typechange: false,
            wt_new: false,
            wt_modified: false,
            wt_deleted: false,
            wt_typechange: false,
            conflicted: false,
        }
    }
}

/// How many of `entries` are `which`.
pub open spec fn count_of(entries: Seq<EntryStatus>, which: spec_fn(EntryStatus) -> bool) -> nat
    decreases entries.len(),
{
    if entries.len() == 0 {
        0
    } else {
        count_of(entries.drop_last(), which) + if which(entries.last()) {
            1nat
        } else {
            0nat
        }
    }
}

/// The changed paths of a working tree, counted four ways. A path is counted
/// under every heading that holds of it.
#[derive(Clone, Copy, Debug, PartialEq, Eq, Structural)]
pub struct Statuses {
    pub staged: usize,
    pub not_staged: usize,
    pub untracked: usize,
    pub conflicted: usize,
}

/// Counts the changed paths.
pub fn get_statuses(entries: &Vec<EntryStatus>) -> (statuses: Statuses)
    ensures
        statuses.staged == count_of(entries@, |e: EntryStatus| e.is_staged()),
        statuses.not_staged == count_of(entries@, |e: EntryStatus| e.is_not_staged()),
        statuses.untracked == count_of(entries@, |e: EntryStatus| e.is_untracked()),
        statuses.conflicted == count_of(entries@, |e: EntryStatus| e.is_conflicted()),
{
    let mut staged: usize = 0;
    let mut not_staged: usize = 0;
    let mut untracked: usize = 0;
    let mut conflicted: usize = 0;
    let mut i: usize = 0;
    while i < entries.len()
        invariant
            i <= entries.len(),
            staged <= i,
            not_staged <= i,
            untracked <= i,
            conflicted <= i,
            staged == count_of(entries@.take(i as int), |e: EntryStatus| e.is_staged()),
            not_staged == count_of(entries@.take(i as int), |e: EntryStatus| e.is_not_staged()),
            untracked == count_of(entries@.take(i as int), |e: EntryStatus| e.is_untracked()),
            conflicted == count_of(entries@.take(i as int), |e: EntryStatus| e.is_conflicted()),
        decreases entries.len() - i,
    {
        let status = entries[i];
        assert(entries@.take(i + 1).drop_last() =~= entries@.take(i as int));
        assert(entries@.take(i + 1).last() == status);
        if status.index_new || status.index_modified || status.index_typechange
            || status.index_renamed || status.index_deleted {
            staged += 1;
        }
        if status.wt_modified || status.wt_typechange || status.wt_deleted {
            not_staged += 1;
        }
        if status.wt_new {
            untracked += 1;
        }
        if status.conflicted {
            conflicted += 1;
        }
        i += 1;
    }
    assert(entries@.take(i as int) =~= entries@);
    Statuses { staged, not_staged, untracked, conflicted }
}

impl Statuses {
    /// Whether there is anything to show.
    pub open spec fn any(&self) -> bool {
        self.staged > 0 || self.not_staged > 0 || self.untracked > 0 || self.conflicted > 0
    }
}

/// The badge of one count: the count and its mark between two blanks.
pub open spec fn badge_text(count: nat, mark: Seq<char>) -> Seq<u8> {
    utf8(" "@) + count_text(count) + utf8(mark) + utf8(" "@)
}

/// What the badge of one count adds to a stream: nothing where the count is
/// zero.
pub open spec fn badge_rendered(before: StreamState, count: nat, mark: Seq<char>) -> StreamState {
    if count > 0 {
        before.set_fg(Color::black()).write_all(badge_text(count, mark))
    } else {
        before
    }
}

/// A badge only adds to the output.
pub broadcast proof fn badge_keeps_the_output(before: StreamState, count: nat, mark: Seq<char>)
    ensures
        before.out.is_prefix_of(#[trigger] badge_rendered(before, count, mark).out),
{
}

fn write_badge<W: ColorableStream>(w: &mut ColoredStream<W>, count: usize, mark: &str) -> (r:
    Result<(), std::io::Error>)
    ensures
        stepped(
            *old(w),
            *final(w),
            r,
            badge_rendered(old(w)@, count as nat, mark@),
        ),
{
    if count > 0 {
        w.set_fg(Color::from_rgb(0, 0, 0))?;
        let mut text: Vec<u8> = Vec::new();
        push_str(&mut text, " ");
        push_count(&mut text, count);
        push_str(&mut text, mark);
        push_str(&mut text, " ");
        w.write_all(text.as_slice())?;
    }
    Ok(())
}

impl Segment for Statuses {
    /// Where any count is above zero, a light segment with the badges of the
    /// counts that are, in the order staged, not staged, untracked,
    /// conflicted. Else nothing.
    open spec fn rendered(&self, before: StreamState) -> StreamState {
        if self.any() {
            badge_rendered(
                badge_rendered(
                    badge_rendered(
                        badge_rendered(
                            before.start_segment(Color { r: 200, g: 200, b: 200 }),
                            self.staged as nat,
                            "✓"@,
                        ),
                        self.not_staged as nat,
                        "*"@,
                    ),
                    self.untracked as nat,
                    "⁺"@,
                ),
                self.conflicted as nat,
                "💔"@,
            )
        } else {
            before
        }
    }

    proof fn keeps_the_output(&self, before: StreamState) {
        broadcast use {start_of_a_start, badge_keeps_the_output};

    }

    fn write<W: ColorableStream>(&mut self, w: &mut ColoredStream<W>) -> (r: Result<
        (),
        std::io::Error,
    >)
        ensures
            *final(self) == *old(self),
    {
        broadcast use {start_of_a_start, badge_keeps_the_output};

        if self.staged > 0 || self.not_staged > 0 || self.untracked > 0 || self.conflicted > 0 {
            w.start_segment(Color::from_rgb(200, 200, 200))?;
            write_badge(w, self.staged, "✓")?;
            write_badge(w, self.not_staged, "*")?;
            write_badge(w, self.untracked, "⁺")?;
            write_badge(w, self.conflicted, "💔")?;
        }
        Ok(())
    }
}

/// Why a half of the segment could not be found out.
#[derive(Clone, Copy, Debug, PartialEq, Eq, Structural)]
pub enum RepoError {
    /// The repository did not answer a question.
    QueryFailed,
    /// The checked-out branch points at nothing.
    TargetNotFound,
    /// An answer was given to a question that had not been asked.
    UnexpectedAnswer,
}

/// What is known of a repository: where HEAD stands and what has changed,
/// each found out or not.
pub struct GitInner {
    pub state: Result<RepoState, RepoError>,
    pub statuses: Result<Statuses, RepoError>,
}

/// The segment of the repository: what is known of it, or nothing where no
/// repository was found.
pub struct Git(Option<GitInner>);

/// The badge that stands for a half that could not be found out.
pub open spec fn broken_rendered(before: StreamState) -> StreamState {
    before.set_bg(Color { r: 255, g: 0, b: 0 }).write_all(utf8(" ☠ "@))
}

fn write_broken<W: ColorableStream>(w: &mut ColoredStream<W>) -> (r: Result<(), std::io::Error>)
    ensures
        stepped(*old(w), *final(w), r, broken_rendered(old(w)@)),
{
    w.set_bg(Color::from_rgb(255, 0, 0))?;
    w.write_str(" ☠ ")
}

/// The badge of a half that is not known only adds to the output.
pub proof fn broken_keeps_the_output(before: StreamState)
    ensures
        before.out.is_prefix_of(broken_rendered(before).out),
{
}

impl GitInner {
    /// Each half only adds to the output.
    pub proof fn keeps_the_output(&self, before: StreamState)
        ensures
            before.out.is_prefix_of(self.head_rendered(before).out),
            before.out.is_prefix_of(self.changes_rendered(before).out),
    {
        match self.state {
            Ok(state) => state.keeps_the_output(before),
            Err(_) => broken_keeps_the_output(before),
        }
        match self.statuses {
            Ok(statuses) => statuses.keeps_the_output(before),
            Err(_) => broken_keeps_the_output(before),
        }
    }

    /// The half that says where HEAD stands.
    pub open spec fn head_rendered(&self, before: StreamState) -> StreamState {
        match self.state {
            Ok(state) => state.rendered(before),
            Err(_) => broken_rendered(before),
        }
    }

    /// The half that says what has changed.
    pub open spec fn changes_rendered(&self, before: StreamState) -> StreamState {
        match self.statuses {
            Ok(statuses) => statuses.rendered(before),
            Err(_) => broken_rendered(before),
        }
    }
}

impl Git {
    /// What the segment knows; `None` where no repository was found.
    pub closed spec fn inner(&self) -> Option<GitInner> {
        self.0
    }

    /// The segment of the repository of which `inner` is known, or of a
    /// repository that was not found.
    pub fn new(inner: Option<GitInner>) -> (segment: Self)
        ensures
            segment.inner() == inner,
    {
        Git(inner)
    }
}

impl Segment for Git {
    /// Where no repository was found, the badge that says so. Else the state
    /// of HEAD and then the counts of changes; in place of either, where it
    /// could not be found out, the same badge.
    open spec fn rendered(&self, before: StreamState) -> StreamState {
        match self.inner() {
            None => broken_rendered(before),
            Some(inner) => inner.changes_rendered(inner.head_rendered(before)),
        }
    }

    proof fn keeps_the_output(&self, before: StreamState) {
        match self.inner() {
            None => broken_keeps_the_output(before),
            Some(inner) => {
                let head = inner.head_rendered(before);
                inner.keeps_the_output(before);
                inner.keeps_the_output(head);
                start_of_a_start(before.out, head.out, inner.changes_rendered(head).out);
            },
        }
    }

    fn write<W: ColorableStream>(&mut self, w: &mut ColoredStream<W>) -> (r: Result<
        (),
        std::io::Error,
    >)
        ensures
            *final(self) == *old(self),
    {
        broadcast use start_of_a_start;

        match &self.0 {
            None => write_broken(w),
            Some(inner) => {
                proof {
                    inner.keeps_the_output(inner.head_rendered(w@));
                }
                match &inner.state {
                    Ok(state) => {
                        state.write(w)?;
                    },
                    Err(_) => {
                        write_broken(w)?;
                    },
                }
                match &inner.statuses {
                    Ok(statuses) => {
                        let mut statuses = *statuses;
                        statuses.write(w)
                    },
                    Err(_) => write_broken(w),
                }
            },
        }
    }
}

} // verus!
