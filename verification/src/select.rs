//! Choosing which of the found projects are cleaned: the preview, the modes of
//! selection, and the confirmations, as a state machine over the user's answers.
use vstd::prelude::*;

verus! {

/// How the preview of `n` found projects goes on.
#[derive(Debug, Clone, Copy, PartialEq, Eq, Structural)]
pub enum PreviewStart {
    /// No project was found: nothing is cleaned.
    NothingFound,
    /// Dry run: the preview is shown and nothing is cleaned.
    DryRun,
    /// No confirmation is asked: every project is cleaned.
    CleanAll,
    /// There is no terminal to ask on: nothing is cleaned.
    NotInteractive,
    /// The user is asked how to select (`Selection::AskMode`).
    AskMode,
}

/// How the preview goes on: an empty list ends it, then a dry run, then the choice to
/// skip the confirmation, then the lack of a terminal; otherwise the user is asked.
pub open spec fn preview_start_for(n: nat, dry_run: bool, no_confirm: bool, interactive: bool) -> PreviewStart {
    if n == 0 {
        PreviewStart::NothingFound
    } else if dry_run {
        PreviewStart::DryRun
    } else if no_confirm {
        PreviewStart::CleanAll
    } else if !interactive {
        PreviewStart::NotInteractive
    } else {
        PreviewStart::AskMode
    }
}

/// How the preview of `n` found projects goes on.
pub fn preview_start(n: usize, dry_run: bool, no_confirm: bool, interactive: bool) -> (r:
    PreviewStart)
    ensures
        r == preview_start_for(n as nat, dry_run, no_confirm, interactive),
{
    if n == 0 {
        PreviewStart::NothingFound
    } else if dry_run {
        PreviewStart::DryRun
    } else if no_confirm {
        PreviewStart::CleanAll
    } else if !interactive {
        PreviewStart::NotInteractive
    } else {
        PreviewStart::AskMode
    }
}

/// Where the interactive selection stands. Projects are named by their position in
/// the preview.
pub enum Selection {
    /// Ask for the mode: 0 clean all, 1 pick projects, 2 review each, 3 cancel.
    AskMode,
    /// Ask whether to clean all projects: 0 yes, 1 no.
    ConfirmAll,
    /// Ask which projects to clean (a multiple choice).
    PickProjects,
    /// Ask whether to clean the picked projects: 0 yes, 1 no.
    ConfirmPicked(Vec<usize>),
    /// Ask what to do with project `next`: 0 clean it, 1 skip it, 2 cancel everything;
    /// `chosen` are the projects chosen so far.
    Review { next: usize, chosen: Vec<usize> },
    /// Ask whether to clean the reviewed choice: 0 yes, 1 no.
    ConfirmReviewed(Vec<usize>),
    /// The selection is over: these projects are cleaned.
    Done(Vec<usize>),
}

/// An answer of the user.
pub enum Answer {
    /// The position of the chosen item of a single choice.
    Choice(usize),
    /// The positions of the chosen items of a multiple choice.
    Picked(Vec<usize>),
}

/// The view of a selection state.
pub enum SelectionView {
    AskMode,
    ConfirmAll,
    PickProjects,
    ConfirmPicked(Seq<usize>),
    Review { next: usize, chosen: Seq<usize> },
    ConfirmReviewed(Seq<usize>),
    Done(Seq<usize>),
}

/// The view of an answer.
pub enum AnswerView {
    Choice(usize),
    Picked(Seq<usize>),
}

impl View for Selection {
    type V = SelectionView;

    open spec fn view(&self) -> SelectionView {
        match self {
            Selection::AskMode => SelectionView::AskMode,
            Selection::ConfirmAll => SelectionView::ConfirmAll,
            Selection::PickProjects => SelectionView::PickProjects,
            Selection::ConfirmPicked(v) => SelectionView::ConfirmPicked(v@),
            Selection::Review { next, chosen } => SelectionView::Review {
                next: *next,
                chosen: chosen@,
            },
            Selection::ConfirmReviewed(v) => SelectionView::ConfirmReviewed(v@),
            Selection::Done(v) => SelectionView::Done(v@),
        }
    }
}

impl View for Answer {
    type V = AnswerView;

    open spec fn view(&self) -> AnswerView {
        match self {
            Answer::Choice(c) => AnswerView::Choice(*c),
            Answer::Picked(v) => AnswerView::Picked(v@),
        }
    }
}

/// Every project, in the order of the preview.
pub open spec fn every_project(n: nat) -> Seq<usize> {
    Seq::new(n, |i: int| i as usize)
}

/// After reviewing project `next` with the choices `chosen`: the next project, or,
/// after the last one, the confirmation (nothing to confirm ends the selection).
pub open spec fn after_review(next: usize, chosen: Seq<usize>, n: nat) -> SelectionView {
    if next + 1 < n {
        SelectionView::Review { next: (next + 1) as usize, chosen }
    } else if chosen.len() == 0 {
        SelectionView::Done(seq![])
    } else {
        SelectionView::ConfirmReviewed(chosen)
    }
}

/// The state that `answer` leads to from `s`, with `n` projects in the preview. An
/// answer of the wrong kind leaves the state as it is.
pub open spec fn step(s: SelectionView, answer: AnswerView, n: nat) -> SelectionView {
    match (s, answer) {
        (SelectionView::AskMode, AnswerView::Choice(0)) => SelectionView::ConfirmAll,
        (SelectionView::AskMode, AnswerView::Choice(1)) => SelectionView::PickProjects,
        (SelectionView::AskMode, AnswerView::Choice(2)) => SelectionView::Review {
            next: 0,
            chosen: seq![],
        },
        (SelectionView::AskMode, AnswerView::Choice(_)) => SelectionView::Done(seq![]),
        (SelectionView::ConfirmAll, AnswerView::Choice(c)) => if c == 0 {
            SelectionView::Done(every_project(n))
        } else {
            SelectionView::Done(seq![])
        },
        (SelectionView::PickProjects, AnswerView::Picked(v)) => if v.len() == 0 {
            SelectionView::Done(seq![])
        } else {
            SelectionView::ConfirmPicked(v)
        },
        (SelectionView::ConfirmPicked(v), AnswerView::Choice(c)) => if c == 0 {
            SelectionView::Done(v)
        } else {
            SelectionView::Done(seq![])
        },
        (SelectionView::Review { next, chosen }, AnswerView::Choice(c)) => if c == 0 {
            after_review(next, chosen.push(next), n)
        } else if c == 1 {
            after_review(next, chosen, n)
        } else {
            SelectionView::Done(seq![])
        },
        (SelectionView::ConfirmReviewed(v), AnswerView::Choice(c)) => if c == 0 {
            SelectionView::Done(v)
        } else {
            SelectionView::Done(seq![])
        },
        _ => s,
    }
}

/// Every position in `v` names one of the `n` projects.
pub open spec fn in_range(v: Seq<usize>, n: nat) -> bool {
    forall|i: int| 0 <= i < v.len() ==> #[trigger] v[i] < n
}

/// The positions in `v` are strictly increasing.
pub open spec fn increasing(v: Seq<usize>) -> bool {
    forall|i: int, j: int| 0 <= i < j < v.len() ==> v[i] < v[j]
}

/// The state names only projects of the preview, each at most once and in the order
/// of the preview; a review moves forward through it and its choices are earlier
/// projects.
pub open spec fn sound(s: SelectionView, n: nat) -> bool {
    match s {
        SelectionView::ConfirmPicked(v) => in_range(v, n) && increasing(v),
        SelectionView::Review { next, chosen } => next < n && in_range(chosen, next as nat)
            && increasing(chosen),
        SelectionView::ConfirmReviewed(v) => in_range(v, n) && increasing(v),
        SelectionView::Done(v) => in_range(v, n) && increasing(v),
        _ => true,
    }
}

/// An answer that the prompt of state `s` can give for `n` projects: a review offers
/// three actions, and a multiple choice names projects of the preview, each at most
/// once, in the order of the preview.
pub open spec fn possible(s: SelectionView, answer: AnswerView, n: nat) -> bool {
    match (s, answer) {
        (SelectionView::Review { .. }, AnswerView::Choice(c)) => c <= 2,
        (SelectionView::PickProjects, AnswerView::Picked(v)) => in_range(v, n) && increasing(v),
        _ => true,
    }
}

impl Selection {
    /// Go on from this state with the user's `answer`; `n` is the number of projects
    /// in the preview.
    pub fn advance(self, answer: Answer, n: usize) -> (r: Selection)
        requires
            possible(self@, answer@, n as nat),
        ensures
            r@ == step(self@, answer@, n as nat),
    {
        match (self, answer) {
            (Selection::AskMode, Answer::Choice(c)) => {
                if c == 0 {
                    Selection::ConfirmAll
                } else if c == 1 {
                    Selection::PickProjects
                } else if c == 2 {
                    Selection::Review { next: 0, chosen: Vec::new() }
                } else {
                    Selection::Done(Vec::new())
                }
            },
            (Selection::ConfirmAll, Answer::Choice(c)) => {
                if c == 0 {
                    let mut all: Vec<usize> = Vec::new();
                    let mut i: usize = 0;
                    while i < n
                        invariant
                            i <= n,
                            all@ == every_project(i as nat),
                        decreases n - i,
                    {
                        all.push(i);
                        proof {
                            assert(all@ =~= every_project((i + 1) as nat));
                        }
                        i = i + 1;
                    }
                    Selection::Done(all)
                } else {
                    Selection::Done(Vec::new())
                }
            },
            (Selection::PickProjects, Answer::Picked(v)) => {
                if v.len() == 0 {
                    Selection::Done(Vec::new())
                } else {
                    Selection::ConfirmPicked(v)
                }
            },
            (Selection::ConfirmPicked(v), Answer::Choice(c)) => {
                if c == 0 {
                    Selection::Done(v)
                } else {
                    Selection::Done(Vec::new())
                }
            },
            (Selection::Review { next, chosen }, Answer::Choice(c)) => {
                if c == 2 {
                    return Selection::Done(Vec::new());
                }
                let mut chosen = chosen;
                if c == 0 {
                    chosen.push(next);
                }
                if next < n && next + 1 < n {
                    Selection::Review { next: next + 1, chosen }
                } else if chosen.len() == 0 {
                    Selection::Done(Vec::new())
                } else {
                    Selection::ConfirmReviewed(chosen)
                }
            },
            (Selection::ConfirmReviewed(v), Answer::Choice(c)) => {
                if c == 0 {
                    Selection::Done(v)
                } else {
                    Selection::Done(Vec::new())
                }
            },
            (s, _) => s,
        }
    }

    /// The projects to clean once the selection is over.
    pub fn finished(&self) -> (r: Option<&Vec<usize>>)
        ensures
            match self@ {
                SelectionView::Done(v) => r matches Some(w) && w@ == v,
                _ => r is None,
            },
    {
        match self {
            Selection::Done(v) => Some(v),
            _ => None,
        }
    }
}

/// With some project in the preview, each step from a sound state, with an answer its
/// prompt can give, leads to a sound state: whatever the user answers, only projects
/// of the preview are ever selected, each at most once and in the order of the preview.
pub proof fn lemma_step_sound(s: SelectionView, answer: AnswerView, n: nat)
    requires
        0 < n <= usize::MAX,
        sound(s, n),
        possible(s, answer, n),
    ensures
        sound(step(s, answer, n), n),
{
    match (s, answer) {
        (SelectionView::Review { next, chosen }, AnswerView::Choice(c)) => {
            let pushed = chosen.push(next);
            assert(in_range(pushed, (next + 1) as nat));
            assert(in_range(chosen, (next + 1) as nat));
            assert(increasing(pushed));
            if next + 1 >= n {
                assert(in_range(pushed, n));
                assert(in_range(chosen, n));
            }
        },
        (SelectionView::ConfirmAll, AnswerView::Choice(c)) => {
            assert(in_range(every_project(n), n));
            assert(increasing(every_project(n)));
        },
        _ => {},
    }
}

/// A declined confirmation, and a cancellation, select nothing.
pub proof fn lemma_declining_selects_nothing(s: SelectionView, c: usize, n: nat)
    requires
        (s is ConfirmAll || s is ConfirmPicked || s is ConfirmReviewed) && c != 0 || (s is AskMode
            && c >= 3) || (s is Review && c == 2),
    ensures
        step(s, AnswerView::Choice(c), n) == SelectionView::Done(seq![]),
{
}

/// With some project found, a dry run only shows the preview, whatever the other
/// flags say: it neither cleans everything nor asks what to clean. Without a dry run,
/// `--no-confirm` cleans everything, a missing terminal cleans nothing, and otherwise
/// the user is asked; with nothing found, nothing happens.
pub proof fn lemma_preview_start_flags(n: nat, dry_run: bool, no_confirm: bool, interactive: bool)
    ensures
        n == 0 ==> preview_start_for(n, dry_run, no_confirm, interactive) == PreviewStart::NothingFound,
        n > 0 && dry_run ==> preview_start_for(n, dry_run, no_confirm, interactive)
            == PreviewStart::DryRun,
        n > 0 && !dry_run && no_confirm ==> preview_start_for(n, dry_run, no_confirm, interactive)
            == PreviewStart::CleanAll,
        n > 0 && !dry_run && !no_confirm && !interactive ==> preview_start_for(
            n,
            dry_run,
            no_confirm,
            interactive,
        ) == PreviewStart::NotInteractive,
        n > 0 && !dry_run && !no_confirm && interactive ==> preview_start_for(
            n,
            dry_run,
            no_confirm,
            interactive,
        ) == PreviewStart::AskMode,
{
}

/// The state reached from `s` by the answers, in order.
pub open spec fn run(s: SelectionView, answers: Seq<AnswerView>, n: nat) -> SelectionView
    decreases answers.len(),
{
    if answers.len() == 0 {
        s
    } else {
        run(step(s, answers[0], n), answers.drop_first(), n)
    }
}

/// The answers of a review: 0 (clean) for the projects to keep in the choice, 1 (skip)
/// for the others.
pub open spec fn review_answers(clean: Seq<bool>) -> Seq<AnswerView> {
    clean.map_values(|b: bool| AnswerView::Choice(if b { 0usize } else { 1usize }))
}

/// The positions `first`, `first + 1`, ... whose entry in `clean` is true, in order.
pub open spec fn positions_cleaned(clean: Seq<bool>, first: nat) -> Seq<usize>
    decreases clean.len(),
{
    if clean.len() == 0 {
        seq![]
    } else {
        (if clean[0] {
            seq![first as usize]
        } else {
            seq![]
        }) + positions_cleaned(clean.drop_first(), first + 1)
    }
}

/// A review under way at project `next`, with `chosen` so far, that answers `clean`
/// for the remaining projects and confirms, cleans `chosen` and exactly the remaining
/// projects answered 0.
pub proof fn lemma_review_keeps_choices(next: nat, chosen: Seq<usize>, clean: Seq<bool>, n: nat)
    requires
        n <= usize::MAX,
        next < n,
        clean.len() == n - next,
    ensures
        run(
            SelectionView::Review { next: next as usize, chosen },
            review_answers(clean).push(AnswerView::Choice(0)),
            n,
        ) == SelectionView::Done(chosen + positions_cleaned(clean, next)),
    decreases clean.len(),
{
    let answers = review_answers(clean).push(AnswerView::Choice(0));
    let s = SelectionView::Review { next: next as usize, chosen };
    let kept = if clean[0] {
        chosen.push(next as usize)
    } else {
        chosen
    };
    assert(answers[0] == AnswerView::Choice(if clean[0] { 0usize } else { 1usize }));
    assert(step(s, answers[0], n) == after_review(next as usize, kept, n));
    let tail = clean.drop_first();
    assert(positions_cleaned(clean, next) == (if clean[0] {
        seq![next as usize]
    } else {
        seq![]
    }) + positions_cleaned(tail, next + 1));
    if next + 1 < n {
        assert(answers.drop_first() =~= review_answers(tail).push(AnswerView::Choice(0)));
        lemma_review_keeps_choices(next + 1, kept, tail, n);
        assert(kept + positions_cleaned(tail, next + 1) =~= chosen + positions_cleaned(clean, next));
    } else {
        assert(tail.len() == 0);
        assert(positions_cleaned(tail, next + 1) == Seq::<usize>::empty());
        let rest = answers.drop_first();
        assert(rest =~= seq![AnswerView::Choice(0)]);
        assert(rest.drop_first().len() == 0);
        assert(kept =~= chosen + positions_cleaned(clean, next));
        if kept.len() == 0 {
            assert(run(SelectionView::Done(seq![]), rest, n) == run(
                SelectionView::Done(seq![]),
                rest.drop_first(),
                n,
            ));
        } else {
            assert(run(SelectionView::ConfirmReviewed(kept), rest, n) == run(
                SelectionView::Done(kept),
                rest.drop_first(),
                n,
            ));
        }
    }
}

/// Choosing to review each of the `n` projects, answering `clean` for them in turn and
/// confirming, cleans exactly the projects answered 0, in order: skipping one keeps
/// the choices made before it.
pub proof fn lemma_review_cleans_exactly_chosen(clean: Seq<bool>, n: nat)
    requires
        0 < n <= usize::MAX,
        clean.len() == n,
    ensures
        run(
            SelectionView::AskMode,
            seq![AnswerView::Choice(2)] + review_answers(clean).push(AnswerView::Choice(0)),
            n,
        ) == SelectionView::Done(positions_cleaned(clean, 0)),
{
    let answers = seq![AnswerView::Choice(2)] + review_answers(clean).push(AnswerView::Choice(0));
    assert(answers[0] == AnswerView::Choice(2));
    assert(answers.drop_first() =~= review_answers(clean).push(AnswerView::Choice(0)));
    lemma_review_keeps_choices(0, seq![], clean, n);
    assert(Seq::<usize>::empty() + positions_cleaned(clean, 0) =~= positions_cleaned(clean, 0));
}

} // verus!
