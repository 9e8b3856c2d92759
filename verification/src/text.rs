//! Building the human-readable progress strings of the quests: decimal
//! rendering of step counts and the description each quest variant shows.

use vstd::prelude::*;

use vstd::string::StringExecFns;

use crate::quest::{CompoundModel, CompoundQuest, GameQuest, PickupQuest, QuestModel, StepQuest,
    SubQuest};
use crate::progress::QuestStatus;
use crate::utils::BackgroundVariant;

verus! {

/// The digit character for a value below ten.
pub open spec fn spec_digit(d: int) -> char {
    if d == 0 {
        '0'
    } else if d == 1 {
        '1'
    } else if d == 2 {
        '2'
    } else if d == 3 {
        '3'
    } else if d == 4 {
        '4'
    } else if d == 5 {
        '5'
    } else if d == 6 {
        '6'
    } else if d == 7 {
        '7'
    } else if d == 8 {
        '8'
    } else {
        '9'
    }
}

/// The decimal rendering of a number, most significant digit first.
pub open spec fn spec_decimal(n: nat) -> Seq<char>
    decreases n,
{
    if n < 10 {
        seq![spec_digit(n as int)]
    } else {
        spec_decimal(n / 10) + seq![spec_digit((n % 10) as int)]
    }
}

/// Append one digit character.
fn append_digit(s: &mut String, d: u64)
    requires
        d < 10,
    ensures
        final(s)@ == old(s)@ + seq![spec_digit(d as int)],
{
    let digit: &str = if d == 0 {
        "0"
    } else if d == 1 {
        "1"
    } else if d == 2 {
        "2"
    } else if d == 3 {
        "3"
    } else if d == 4 {
        "4"
    } else if d == 5 {
        "5"
    } else if d == 6 {
        "6"
    } else if d == 7 {
        "7"
    } else if d == 8 {
        "8"
    } else {
        "9"
    };
    proof {
        reveal_strlit("0");
        reveal_strlit("1");
        reveal_strlit("2");
        reveal_strlit("3");
        reveal_strlit("4");
        reveal_strlit("5");
        reveal_strlit("6");
        reveal_strlit("7");
        reveal_strlit("8");
        reveal_strlit("9");
        assert(digit@ =~= seq![spec_digit(d as int)]);
    }
    s.append(digit);
}

/// Append the decimal rendering of `n`.
fn append_decimal(s: &mut String, n: u64)
    ensures
        final(s)@ == old(s)@ + spec_decimal(n as nat),
    decreases n,
{
    if n >= 10 {
        append_decimal(s, n / 10);
        append_digit(s, n % 10);
        assert(s@ =~= old(s)@ + spec_decimal(n as nat));
    } else {
        append_digit(s, n);
    }
}

/// The decimal rendering of `n`, as a string.
pub fn decimal_string(n: u64) -> (r: String)
    ensures
        r@ == spec_decimal(n as nat),
{
    let mut s = String::new();
    append_decimal(&mut s, n);
    proof {
        assert(s@ =~= spec_decimal(n as nat));
    }
    s
}

/// The display name of a terrain kind.
pub open spec fn spec_bg_name(b: BackgroundVariant) -> Seq<char> {
    match b {
        BackgroundVariant::Grass => "Grass"@,
        BackgroundVariant::Sand => "Sand"@,
        BackgroundVariant::Rock => "Rock"@,
        BackgroundVariant::Cinderblock => "Cinderblock"@,
        BackgroundVariant::Flowerbush => "Flowerbush"@,
        BackgroundVariant::Barrier => "Barrier"@,
        BackgroundVariant::Water => "Water"@,
    }
}

/// The display name of a terrain kind, executable.
pub fn bg_name(b: &BackgroundVariant) -> (r: &'static str)
    ensures
        r@ == spec_bg_name(*b),
{
    match b {
        BackgroundVariant::Grass => "Grass",
        BackgroundVariant::Sand => "Sand",
        BackgroundVariant::Rock => "Rock",
        BackgroundVariant::Cinderblock => "Cinderblock",
        BackgroundVariant::Flowerbush => "Flowerbush",
        BackgroundVariant::Barrier => "Barrier",
        BackgroundVariant::Water => "Water",
    }
}

/// Relies on `<String as From<char>>::from`: allocates a string holding
/// exactly the one character.
#[verifier::external_body]
fn char_to_string(c: char) -> (r: String)
    ensures
        r@ == seq![c],
{
    String::from(c)
}

/// The "(attempted/total)" or "(Completed)" tail of a quest description.
pub open spec fn spec_progress_tail(status: QuestStatus, steps: usize) -> Seq<char> {
    match status {
        QuestStatus::Pending(n) => "("@ + spec_decimal((n - 1) as nat) + "/"@ + spec_decimal(
            steps as nat,
        ) + ")"@,
        QuestStatus::Completed => "(Completed)"@,
    }
}

/// Append the progress tail of a tracker.
fn append_progress_tail(s: &mut String, status: QuestStatus, steps: usize)
    requires
        status matches QuestStatus::Pending(n) ==> n >= 1,
    ensures
        final(s)@ == old(s)@ + spec_progress_tail(status, steps),
{
    match status {
        QuestStatus::Pending(n) => {
            s.append("(");
            let done = decimal_string((n - 1) as u64);
            s.append(done.as_str());
            s.append("/");
            let total = decimal_string(steps as u64);
            s.append(total.as_str());
            s.append(")");
            assert(s@ =~= old(s)@ + spec_progress_tail(status, steps));
        }
        QuestStatus::Completed => {
            s.append("(Completed)");
        }
    }
}

impl StepQuest {
    /// The description the quest shows, e.g. the steps walked so far out
    /// of the steps wanted on the target terrain.
    pub open spec fn spec_text(self) -> Seq<char> {
        "walk on "@ + spec_decimal(self.progress.steps as nat) + " "@ + spec_bg_name(
            self.background,
        ) + " tile(s)."@ + spec_progress_tail(self.progress.status, self.progress.steps)
    }

    /// Render the description.
    pub fn text(&self) -> (r: String)
        requires
            self.wf(),
        ensures
            r@ == self.spec_text(),
    {
        let mut s = String::new();
        s.append("walk on ");
        let steps = decimal_string(self.progress.steps as u64);
        s.append(steps.as_str());
        s.append(" ");
        s.append(bg_name(&self.background));
        s.append(" tile(s).");
        append_progress_tail(&mut s, self.progress.status, self.progress.steps);
        proof {
            assert(s@ =~= self.spec_text());
        }
        s
    }
}

impl PickupQuest {
    /// The description the quest shows, e.g. the pickups so far out of the
    /// pickups wanted of the target item.
    pub open spec fn spec_text(self) -> Seq<char> {
        "pickup "@ + spec_decimal(self.progress.steps as nat) + " "@ + seq![self.item] + "(s)."@
            + spec_progress_tail(self.progress.status, self.progress.steps)
    }

    /// Render the description.
    pub fn text(&self) -> (r: String)
        requires
            self.wf(),
        ensures
            r@ == self.spec_text(),
    {
        let mut s = String::new();
        s.append("pickup ");
        let steps = decimal_string(self.progress.steps as u64);
        s.append(steps.as_str());
        s.append(" ");
        let item = char_to_string(self.item);
        s.append(item.as_str());
        s.append("(s).");
        append_progress_tail(&mut s, self.progress.status, self.progress.steps);
        proof {
            assert(s@ =~= self.spec_text());
        }
        s
    }
}

impl SubQuest {
    pub open spec fn spec_text(self) -> Seq<char> {
        match self {
            SubQuest::Step(q) => q.spec_text(),
            SubQuest::Pickup(q) => q.spec_text(),
        }
    }

    /// Render the description of the part.
    pub fn text(&self) -> (r: String)
        requires
            self.wf(),
        ensures
            r@ == self.spec_text(),
    {
        match self {
            SubQuest::Step(q) => q.text(),
            SubQuest::Pickup(q) => q.text(),
        }
    }
}

impl CompoundModel {
    /// The description the compound shows: which part is active out of how
    /// many, and that part's own description; or that all are done.
    pub open spec fn spec_text(self) -> Seq<char> {
        match self.progress.status {
            QuestStatus::Pending(n) => spec_decimal(n as nat) + "/"@ + spec_decimal(
                self.progress.steps as nat,
            ) + ": "@ + self.subs[n - 1].spec_text(),
            QuestStatus::Completed => "Completed"@,
        }
    }
}

impl CompoundQuest {
    /// The description the compound shows.
    pub open spec fn spec_text(self) -> Seq<char> {
        self@.spec_text()
    }

    /// Render the description.
    pub fn text(&self) -> (r: String)
        requires
            self.wf(),
        ensures
            r@ == self.spec_text(),
    {
        match self.progress.progress() {
            Some((current, total)) => {
                let mut s = String::new();
                let cur = decimal_string(current as u64);
                s.append(cur.as_str());
                s.append("/");
                let tot = decimal_string(total as u64);
                s.append(tot.as_str());
                s.append(": ");
                let sub = self.sub_quests[current - 1].text();
                s.append(sub.as_str());
                proof {
                    assert(s@ =~= self.spec_text());
                }
                s
            }
            None => String::from_str("Completed"),
        }
    }
}

impl QuestModel {
    pub open spec fn spec_text(self) -> Seq<char> {
        match self {
            QuestModel::Step(q) => q.spec_text(),
            QuestModel::Pickup(q) => q.spec_text(),
            QuestModel::Compound(c) => c.spec_text(),
        }
    }
}

impl GameQuest {
    pub open spec fn spec_text(self) -> Seq<char> {
        self@.spec_text()
    }

    /// Render the description of whichever quest this is.
    pub fn text(&self) -> (r: String)
        requires
            self.wf(),
        ensures
            r@ == self.spec_text(),
    {
        match self {
            GameQuest::Step(q) => q.text(),
            GameQuest::Pickup(q) => q.text(),
            GameQuest::Compound(c) => c.text(),
        }
    }
}

} // verus!
