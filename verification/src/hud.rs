//! The score as the player sees it, and the hints shown along the climb.

use crate::shop::{points_left, PointsSpent};
use vstd::prelude::*;

verus! {

/// Points by what earned them.
#[derive(Clone, Copy, Debug, PartialEq, Eq, Structural)]
pub struct ScoreData {
    pub height: u64,
    pub destruction: u64,
}

impl Default for ScoreData {
    fn default() -> (data: ScoreData)
        ensures
            data == (ScoreData { height: 0, destruction: 0 }),
    {
        ScoreData { height: 0, destruction: 0 }
    }
}

impl ScoreData {
    /// Height and destruction points together, held at the end of the `u64`
    /// range.
    pub open spec fn spec_total(&self) -> u64 {
        if self.height + self.destruction > u64::MAX {
            u64::MAX
        } else {
            (self.height + self.destruction) as u64
        }
    }

    /// Height and destruction points together.
    #[verifier::when_used_as_spec(spec_total)]
    pub fn total(&self) -> (sum: u64)
        ensures
            sum == self.spec_total(),
    {
        self.height.saturating_add(self.destruction)
    }
}

/// Time between two reveals of earned points.
pub const REVEAL_INTERVAL: u64 = 200_000_000;

/// The score: the points already shown, the points earned and not yet shown,
/// and the time until the next point is revealed.
#[derive(Clone, Copy, Debug, PartialEq, Eq, Structural)]
pub struct Score {
    pub timer: u64,
    pub current: ScoreData,
    pub to_be_added: ScoreData,
}

impl Default for Score {
    fn default() -> (score: Score)
        ensures
            score == (Score {
                timer: 0,
                current: ScoreData { height: 0, destruction: 0 },
                to_be_added: ScoreData { height: 0, destruction: 0 },
            }),
    {
        Score {
            timer: 0,
            current: ScoreData { height: 0, destruction: 0 },
            to_be_added: ScoreData { height: 0, destruction: 0 },
        }
    }
}

/// Whether one point can move from `pending` to `shown`.
pub open spec fn can_reveal(shown: u64, pending: u64) -> bool {
    pending > 0 && shown < u64::MAX
}

impl Score {
    /// The score after one point of each kind, where one is pending, has
    /// moved from `to_be_added` to `current`, and the timer has started anew.
    pub open spec fn revealed(self) -> Score {
        Score {
            timer: REVEAL_INTERVAL,
            current: ScoreData {
                height: if can_reveal(self.current.height, self.to_be_added.height) {
                    (self.current.height + 1) as u64
                } else {
                    self.current.height
                },
                destruction: if can_reveal(self.current.destruction, self.to_be_added.destruction) {
                    (self.current.destruction + 1) as u64
                } else {
                    self.current.destruction
                },
            },
            to_be_added: ScoreData {
                height: if can_reveal(self.current.height, self.to_be_added.height) {
                    (self.to_be_added.height - 1) as u64
                } else {
                    self.to_be_added.height
                },
                destruction: if can_reveal(self.current.destruction, self.to_be_added.destruction) {
                    (self.to_be_added.destruction - 1) as u64
                } else {
                    self.to_be_added.destruction
                },
            },
        }
    }

    /// The score after `delta` has passed: the timer runs down, and when it
    /// would drop below zero a point is revealed.
    pub open spec fn after(self, delta: u64) -> Score {
        if delta > self.timer {
            self.revealed()
        } else {
            Score { timer: (self.timer - delta) as u64, ..self }
        }
    }

    /// The score with the height points raised to `height`, if that is more.
    pub open spec fn raised_to(self, height: u64) -> Score {
        Score {
            current: ScoreData {
                height: if height > self.current.height {
                    height
                } else {
                    self.current.height
                },
                ..self.current
            },
            ..self
        }
    }
}

/// Lets `delta` pass on the reveal timer. When the timer runs out, at most
/// one height point and one destruction point move from `to_be_added` to
/// `current`, and the timer starts again at `REVEAL_INTERVAL`. The points
/// shown never go down.
pub fn transfer_score(score: &mut Score, delta: u64)
    ensures
        *final(score) == old(score).after(delta),
        final(score).current.height >= old(score).current.height,
        final(score).current.destruction >= old(score).current.destruction,
        final(score).current.total() >= old(score).current.total(),
{
    if delta > score.timer {
        if score.to_be_added.destruction > 0 && score.current.destruction < u64::MAX {
            score.to_be_added.destruction -= 1;
            score.current.destruction += 1;
        }
        if score.to_be_added.height > 0 && score.current.height < u64::MAX {
            score.to_be_added.height -= 1;
            score.current.height += 1;
        }
        score.timer = REVEAL_INTERVAL;
    } else {
        score.timer -= delta;
    }
}

/// Revealing moves points and makes none: what is shown and what is pending
/// add up to the same before and after, and at most one point of each kind
/// moves at a time.
pub proof fn lemma_reveal_moves_points(score: Score, delta: u64)
    ensures
        score.after(delta).current.height + score.after(delta).to_be_added.height
            == score.current.height + score.to_be_added.height,
        score.after(delta).current.destruction + score.after(delta).to_be_added.destruction
            == score.current.destruction + score.to_be_added.destruction,
        score.current.height <= score.after(delta).current.height <= score.current.height + 1,
        score.current.destruction <= score.after(delta).current.destruction
            <= score.current.destruction + 1,
{
}

/// What the score line and the line of points left show.
#[derive(Clone, Copy, Debug, PartialEq, Eq, Structural)]
pub struct ScoreDisplay {
    /// The points shown so far.
    pub total: u64,
    /// The points left to spend. Nothing is shown until something was spent.
    pub points_left: Option<u64>,
}

/// What the score display shows: the points shown so far and, once points
/// were spent, the points left to spend.
pub fn update_score_text(score: &Score, points_spent: &PointsSpent) -> (text: ScoreDisplay)
    ensures
        text.total == score.current.total(),
        text.points_left == if points_spent.0 > 0 {
            Some(points_left(*score, *points_spent) as u64)
        } else {
            None
        },
{
    let total = score.current.total();
    ScoreDisplay {
        total,
        points_left: if points_spent.0 > 0 {
            Some(total.saturating_sub(points_spent.0))
        } else {
            None
        },
    }
}

/// Flips the debug panel when its key was pressed, and says whether the
/// panel is shown and its lines are to be refreshed.
pub fn update_info_text(visible: &mut bool, toggle_just_pressed: bool) -> (refresh: bool)
    ensures
        *final(visible) == (*old(visible) != toggle_just_pressed),
        refresh == *final(visible),
{
    if toggle_just_pressed {
        *visible = !*visible;
    }
    *visible
}

/// How long a hint is shown.
pub const HINT_DURATION: u64 = 5_000_000_000;

/// The altitude above which the hint on the grappling hook is given.
pub const GRAPPLE_HINT_Y: i64 = 600;

/// The altitude above which the hint on dashing is given.
pub const DASH_HINT_Y: i64 = 100_000;

/// The altitude above which the hint on the debug panel is given.
pub const INFO_HINT_Y: i64 = 300_000;

pub const GRAPPLE_HINT_TEXT: &'static str = "to use your grappling hook on an object.";

pub const GRAPPLE_HINT_ICON: &'static str = "textures/keyboardmouse/Mouse_Left_Key_Dark.png";

pub const DASH_HINT_TEXT: &'static str = "to dash. (Replinishes upon hooking to an object)";

pub const DASH_HINT_ICON: &'static str = "textures/keyboardmouse/Mouse_Right_Key_Dark.png";

pub const INFO_HINT_TEXT: &'static str = "to toggle additional info.";

pub const INFO_HINT_ICON: &'static str = "textures/keyboardmouse/F3_Key_Dark.png";

/// A hint waiting to be shown or on show: its text until it has been put on
/// show, its icon, and the time it still has.
#[derive(Clone, Debug, PartialEq, Eq)]
pub struct UiHint {
    pub text: Option<String>,
    pub icon: &'static str,
    pub duration: u64,
}

/// A hint as its characters.
pub struct UiHintView {
    pub text: Option<Seq<char>>,
    pub icon: Seq<char>,
    pub duration: u64,
}

impl View for UiHint {
    type V = UiHintView;

    open spec fn view(&self) -> UiHintView {
        UiHintView {
            text: match self.text {
                Some(text) => Some(text@),
                None => None,
            },
            icon: self.icon@,
            duration: self.duration,
        }
    }
}

/// The hints in the order they were given. The first one is on show.
#[derive(Clone, Debug, PartialEq, Eq)]
pub struct UiHints(pub Vec<UiHint>);

impl View for UiHints {
    type V = Seq<UiHintView>;

    open spec fn view(&self) -> Seq<UiHintView> {
        self.0@.map_values(|hint: UiHint| hint@)
    }
}

impl Default for UiHints {
    fn default() -> (hints: UiHints)
        ensures
            hints@ == Seq::<UiHintView>::empty(),
    {
        UiHints(Vec::new())
    }
}

/// Which hints were given already.
#[derive(Clone, Copy, Debug, PartialEq, Eq, Structural)]
pub struct HintsActivated {
    pub grapple: bool,
    pub dash: bool,
    pub info: bool,
}

impl Default for HintsActivated {
    fn default() -> (activated: HintsActivated)
        ensures
            activated == (HintsActivated { grapple: false, dash: false, info: false }),
    {
        HintsActivated { grapple: false, dash: false, info: false }
    }
}

/// A fresh hint with the given text and icon.
pub open spec fn fresh_hint(text: &str, icon: &str) -> UiHintView {
    UiHintView { text: Some(text@), icon: icon@, duration: HINT_DURATION }
}

/// `hint` if `due`, else nothing.
pub open spec fn hint_if(due: bool, hint: UiHintView) -> Seq<UiHintView> {
    if due {
        seq![hint]
    } else {
        Seq::empty()
    }
}

/// The hints that fall due for a player at altitude `y`: each one whose
/// altitude lies below `y` and that was not given before.
pub open spec fn hints_due(activated: HintsActivated, y: i64) -> Seq<UiHintView> {
    hint_if(y > GRAPPLE_HINT_Y && !activated.grapple, fresh_hint(GRAPPLE_HINT_TEXT, GRAPPLE_HINT_ICON))
        + hint_if(y > DASH_HINT_Y && !activated.dash, fresh_hint(DASH_HINT_TEXT, DASH_HINT_ICON))
        + hint_if(y > INFO_HINT_Y && !activated.info, fresh_hint(INFO_HINT_TEXT, INFO_HINT_ICON))
}

fn push_hint(hints: &mut UiHints, text: &'static str, icon: &'static str)
    ensures
        final(hints)@ == old(hints)@.push(fresh_hint(text, icon)),
{
    hints.0.push(UiHint { text: Some(text.to_owned()), icon, duration: HINT_DURATION });
    assert(hints@ =~= old(hints)@.push(fresh_hint(text, icon)));
}

/// Queues the hints that fall due at the player's altitude, each one once:
/// a hint is given the first time the player is above its altitude, behind
/// the hints already queued. Without a player nothing is queued.
pub fn create_hints(
    hints: &mut UiHints,
    player_y: Option<i64>,
    hints_activated: &mut HintsActivated,
)
    ensures
        player_y is None ==> final(hints)@ == old(hints)@ && *final(hints_activated) == *old(
            hints_activated,
        ),
        player_y matches Some(y) ==> {
            &&& final(hints)@ == old(hints)@ + hints_due(*old(hints_activated), y)
            &&& *final(hints_activated) == (HintsActivated {
                grapple: old(hints_activated).grapple || y > GRAPPLE_HINT_Y,
                dash: old(hints_activated).dash || y > DASH_HINT_Y,
                info: old(hints_activated).info || y > INFO_HINT_Y,
            })
        },
{
    if let Some(y) = player_y {
        if y > GRAPPLE_HINT_Y && !hints_activated.grapple {
            push_hint(hints, GRAPPLE_HINT_TEXT, GRAPPLE_HINT_ICON);
            hints_activated.grapple = true;
        }
        if y > DASH_HINT_Y && !hints_activated.dash {
            push_hint(hints, DASH_HINT_TEXT, DASH_HINT_ICON);
            hints_activated.dash = true;
        }
        if y > INFO_HINT_Y && !hints_activated.info {
            push_hint(hints, INFO_HINT_TEXT, INFO_HINT_ICON);
            hints_activated.info = true;
        }
        assert(hints@ =~= old(hints)@ + hints_due(*old(hints_activated), y));
    }
}

/// What the hint display is to do.
#[derive(Clone, Debug, PartialEq, Eq)]
pub enum HintDisplay {
    /// Leave the display as it is.
    Keep,
    /// Hide the display: the hint on show has run out.
    Hide,
    /// Put a hint on show.
    Show { text: String, icon: &'static str },
}

/// A hint display as its characters.
pub enum HintDisplayView {
    Keep,
    Hide,
    Show { text: Seq<char>, icon: Seq<char> },
}

impl View for HintDisplay {
    type V = HintDisplayView;

    open spec fn view(&self) -> HintDisplayView {
        match self {
            HintDisplay::Keep => HintDisplayView::Keep,
            HintDisplay::Hide => HintDisplayView::Hide,
            HintDisplay::Show { text, icon } => HintDisplayView::Show { text: text@, icon: icon@ },
        }
    }
}

/// The hints after `delta` has passed for the first of them: it is dropped
/// when it has less time than that, and else it has been put on show and
/// has that much less time.
pub open spec fn hints_after(hints: Seq<UiHintView>, delta: u64) -> Seq<UiHintView> {
    if hints.len() == 0 {
        hints
    } else if delta > hints[0].duration {
        hints.drop_first()
    } else {
        hints.update(
            0,
            UiHintView {
                text: None,
                icon: hints[0].icon,
                duration: (hints[0].duration - delta) as u64,
            },
        )
    }
}

/// What the display does when `delta` passes for `hints`.
pub open spec fn hint_display(hints: Seq<UiHintView>, delta: u64) -> HintDisplayView {
    if hints.len() == 0 {
        HintDisplayView::Keep
    } else if delta > hints[0].duration {
        HintDisplayView::Hide
    } else {
        match hints[0].text {
            Some(text) => HintDisplayView::Show { text, icon: hints[0].icon },
            None => HintDisplayView::Keep,
        }
    }
}

/// Lets `delta` pass for the hint at the head of the queue. Hints are shown
/// one at a time and in the order they were given: only the first hint loses
/// time. When it has less time than `delta` it is dropped and the display is
/// hidden; the next hint is taken up on the pass after. A hint that has not
/// been on show yet is put on show, which takes its text.
pub fn update_hints(hints: &mut UiHints, delta: u64) -> (display: HintDisplay)
    ensures
        final(hints)@ == hints_after(old(hints)@, delta),
        display@ == hint_display(old(hints)@, delta),
{
    if hints.0.len() == 0 {
        return HintDisplay::Keep;
    }
    if delta > hints.0[0].duration {
        hints.0.remove(0);
        assert(hints@ =~= old(hints)@.drop_first());
        return HintDisplay::Hide;
    }
    let hint = &mut hints.0[0];
    hint.duration = hint.duration - delta;
    let text = hint.text.take();
    let icon = hint.icon;
    assert(hints@ =~= hints_after(old(hints)@, delta));
    match text {
        Some(text) => HintDisplay::Show { text, icon },
        None => HintDisplay::Keep,
    }
}

} // verus!
