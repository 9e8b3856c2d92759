//! The quest variants: a consecutive-visit quest, a pickup quest, and a
//! sequential compound of the two, all driven purely by the event stream.

use vstd::prelude::*;

use crate::progress::{Quest, QuestProgress, QuestStatus, Reset};
use crate::utils::{BackgroundVariant, Event, EventModel};

verus! {

/// Completes after visiting a given background N times consecutively; a
/// move onto any other tile resets progress to the first step.
#[derive(Debug, Clone, PartialEq, Eq, Structural)]
pub struct StepQuest {
    pub background: BackgroundVariant,
    pub progress: QuestProgress,
}

impl StepQuest {
    pub open spec fn wf(self) -> bool {
        self.progress.wf()
    }

    /// What one observed event turns the quest into.  A completed quest
    /// never changes; a move onto the target background advances, a move
    /// elsewhere resets, and other events are ignored.
    pub open spec fn spec_update(self, ev: EventModel) -> StepQuest {
        if self.progress.status is Completed {
            self
        } else {
            match ev {
                EventModel::MoveTo(_, bg) => if bg == Some(self.background) {
                    StepQuest { progress: self.progress.spec_next(), ..self }
                } else {
                    StepQuest { progress: self.progress.spec_reset(), ..self }
                },
                _ => self,
            }
        }
    }

    /// A fresh quest: visit `background` on `steps` consecutive moves.
    pub fn new(background: BackgroundVariant, steps: usize) -> (r: Self)
        requires
            steps >= 1,
        ensures
            r == (StepQuest {
                background,
                progress: QuestProgress { steps, status: QuestStatus::Pending(1) },
            }),
            r.wf(),
    {
        Self { background, progress: QuestProgress::new(steps) }
    }
}

impl Reset for StepQuest {
    fn reset(&mut self)
        ensures
            *final(self) == (StepQuest {
                progress: old(self).progress.spec_reset(),
                ..*old(self)
            }),
    {
        self.progress.reset();
    }
}

impl Quest<Event> for StepQuest {
    fn update(&mut self, event: &Event)
        ensures
            *final(self) == old(self).spec_update(event@),
            old(self).wf() ==> final(self).wf(),
    {
        if self.is_completed() {
            return ;
        }
        match event {
            Event::MoveTo(_, bg_opt) => {
                let advance = match bg_opt {
                    Some(b) => *b == self.background,
                    None => false,
                };
                if advance {
                    self.progress.next();
                } else {
                    self.progress.reset();
                }
            }
            _ => {}
        }
    }

    fn status(&self) -> (r: QuestStatus)
        ensures
            r == self.progress.status,
    {
        self.progress.status
    }

    fn is_completed(&self) -> (r: bool)
        ensures
            r <==> self.progress.status is Completed,
    {
        self.progress.is_completed()
    }
}

/// Completes after picking up a given item identity N times; events that
/// do not match are ignored and never reset progress.
#[derive(Debug, Clone, PartialEq, Eq, Structural)]
pub struct PickupQuest {
    pub item: char,
    pub progress: QuestProgress,
}

impl PickupQuest {
    pub open spec fn wf(self) -> bool {
        self.progress.wf()
    }

    /// What one observed event turns the quest into: a pickup of the
    /// target item advances, everything else is ignored.
    pub open spec fn spec_update(self, ev: EventModel) -> PickupQuest {
        if self.progress.status is Completed {
            self
        } else {
            match ev {
                EventModel::Pickup(c) => if c == self.item {
                    PickupQuest { progress: self.progress.spec_next(), ..self }
                } else {
                    self
                },
                _ => self,
            }
        }
    }

    /// A fresh quest: pick up `number` objects with identity `item`.
    pub fn new(item: char, number: usize) -> (r: Self)
        requires
            number >= 1,
        ensures
            r == (PickupQuest {
                item,
                progress: QuestProgress { steps: number, status: QuestStatus::Pending(1) },
            }),
            r.wf(),
    {
        Self { item, progress: QuestProgress::new(number) }
    }
}

impl Reset for PickupQuest {
    fn reset(&mut self)
        ensures
            *final(self) == (PickupQuest {
                progress: old(self).progress.spec_reset(),
                ..*old(self)
            }),
    {
        self.progress.reset();
    }
}

impl Quest<Event> for PickupQuest {
    fn update(&mut self, event: &Event)
        ensures
            *final(self) == old(self).spec_update(event@),
            old(self).wf() ==> final(self).wf(),
    {
        if self.is_completed() {
            return ;
        }
        match event {
            Event::Pickup(item) => {
                if *item == self.item {
                    self.progress.next();
                }
            }
            _ => {}
        }
    }

    fn status(&self) -> (r: QuestStatus)
        ensures
            r == self.progress.status,
    {
        self.progress.status
    }

    fn is_completed(&self) -> (r: bool)
        ensures
            r <==> self.progress.status is Completed,
    {
        self.progress.is_completed()
    }
}

/// A quest a compound quest can hold as one of its ordered parts.
#[derive(Debug, Clone, PartialEq, Eq, Structural)]
pub enum SubQuest {
    Step(StepQuest),
    Pickup(PickupQuest),
}

impl SubQuest {
    pub open spec fn wf(self) -> bool {
        match self {
            SubQuest::Step(q) => q.wf(),
            SubQuest::Pickup(q) => q.wf(),
        }
    }

    pub open spec fn spec_status(self) -> QuestStatus {
        match self {
            SubQuest::Step(q) => q.progress.status,
            SubQuest::Pickup(q) => q.progress.status,
        }
    }

    pub open spec fn spec_is_completed(self) -> bool {
        self.spec_status() is Completed
    }

    pub open spec fn spec_update(self, ev: EventModel) -> SubQuest {
        match self {
            SubQuest::Step(q) => SubQuest::Step(q.spec_update(ev)),
            SubQuest::Pickup(q) => SubQuest::Pickup(q.spec_update(ev)),
        }
    }

    pub open spec fn spec_reset(self) -> SubQuest {
        match self {
            SubQuest::Step(q) => SubQuest::Step(
                StepQuest { progress: q.progress.spec_reset(), ..q },
            ),
            SubQuest::Pickup(q) => SubQuest::Pickup(
                PickupQuest { progress: q.progress.spec_reset(), ..q },
            ),
        }
    }
}

impl Reset for SubQuest {
    fn reset(&mut self)
        ensures
            *final(self) == old(self).spec_reset(),
    {
        match self {
            SubQuest::Step(q) => q.reset(),
            SubQuest::Pickup(q) => q.reset(),
        }
    }
}

impl Quest<Event> for SubQuest {
    fn update(&mut self, event: &Event)
        ensures
            *final(self) == old(self).spec_update(event@),
            old(self).wf() ==> final(self).wf(),
    {
        match self {
            SubQuest::Step(q) => q.update(event),
            SubQuest::Pickup(q) => q.update(event),
        }
    }

    fn status(&self) -> (r: QuestStatus)
        ensures
            r == self.spec_status(),
    {
        match self {
            SubQuest::Step(q) => q.status(),
            SubQuest::Pickup(q) => q.status(),
        }
    }

    fn is_completed(&self) -> (r: bool)
        ensures
            r <==> self.spec_is_completed(),
    {
        match self {
            SubQuest::Step(q) => q.is_completed(),
            SubQuest::Pickup(q) => q.is_completed(),
        }
    }
}

/// The mathematical content of a compound quest.
#[verifier::ext_equal]
pub ghost struct CompoundModel {
    pub subs: Seq<SubQuest>,
    pub progress: QuestProgress,
}

impl CompoundModel {
    pub open spec fn wf(self) -> bool {
        &&& self.progress.wf()
        &&& self.progress.steps == self.subs.len()
        &&& forall|i: int| 0 <= i < self.subs.len() ==> (#[trigger] self.subs[i]).wf()
    }

    /// What one observed event turns the compound into: only the active
    /// part sees the event; when that part completes, the compound's own
    /// progress advances to the next part.  A compound whose active index
    /// is out of range (which a well-formed compound never has) is left
    /// unchanged, as is a completed one.
    pub open spec fn spec_update(self, ev: EventModel) -> CompoundModel {
        match self.progress.status {
            QuestStatus::Pending(n) => if 1 <= n <= self.subs.len() {
                let sub = self.subs[n - 1].spec_update(ev);
                CompoundModel {
                    subs: self.subs.update(n - 1, sub),
                    progress: if sub.spec_is_completed() {
                        self.progress.spec_next()
                    } else {
                        self.progress
                    },
                }
            } else {
                self
            },
            QuestStatus::Completed => self,
        }
    }
}

/// An ordered list of sub-quests, gated sequentially: each incoming event
/// is delegated only to the currently active sub-quest, and completion of
/// that sub-quest makes the next one active.
#[derive(Debug, Clone, PartialEq, Eq)]
pub struct CompoundQuest {
    pub sub_quests: Vec<SubQuest>,
    pub progress: QuestProgress,
}

impl View for CompoundQuest {
    type V = CompoundModel;

    open spec fn view(&self) -> CompoundModel {
        CompoundModel { subs: self.sub_quests@, progress: self.progress }
    }
}

impl CompoundQuest {
    pub open spec fn wf(self) -> bool {
        self@.wf()
    }

    /// A fresh compound over the given parts, the first one active.
    pub fn new(sub_quests: Vec<SubQuest>) -> (r: Self)
        requires
            sub_quests@.len() >= 1,
        ensures
            r@ == (CompoundModel {
                subs: sub_quests@,
                progress: QuestProgress {
                    steps: sub_quests@.len() as usize,
                    status: QuestStatus::Pending(1),
                },
            }),
            (forall|i: int| 0 <= i < sub_quests@.len() ==> (#[trigger] sub_quests@[i]).wf())
                ==> r.wf(),
    {
        let progress = QuestProgress::new(sub_quests.len());
        Self { sub_quests, progress }
    }
}

impl Reset for CompoundQuest {
    /// Make the first part active again.  The parts themselves keep their
    /// progress: this rewinds the gating, not the parts.
    fn reset(&mut self)
        ensures
            final(self)@ == (CompoundModel {
                progress: old(self).progress.spec_reset(),
                ..old(self)@
            }),
    {
        self.progress.reset();
    }
}

impl Quest<Event> for CompoundQuest {
    fn update(&mut self, event: &Event)
        ensures
            final(self)@ == old(self)@.spec_update(event@),
            old(self).wf() ==> final(self).wf(),
    {
        match self.progress.progress() {
            Some((current, _total)) => {
                if 1 <= current && current <= self.sub_quests.len() {
                    let ghost subs0 = self.sub_quests@;
                    let i = current - 1;
                    let mut sub = self.sub_quests.remove(i);
                    sub.update(event);
                    let done = sub.is_completed();
                    self.sub_quests.insert(i, sub);
                    proof {
                        assert(self.sub_quests@ =~= subs0.update(i as int, sub));
                    }
                    if done {
                        self.progress.next();
                    }
                }
            }
            None => {}
        }
    }

    fn status(&self) -> (r: QuestStatus)
        ensures
            r == self.progress.status,
    {
        self.progress.status
    }

    fn is_completed(&self) -> (r: bool)
        ensures
            r <==> self.progress.status is Completed,
    {
        self.progress.is_completed()
    }
}

/// The mathematical content of any quest the game can hold.
#[verifier::ext_equal]
pub ghost enum QuestModel {
    Step(StepQuest),
    Pickup(PickupQuest),
    Compound(CompoundModel),
}

impl QuestModel {
    pub open spec fn wf(self) -> bool {
        match self {
            QuestModel::Step(q) => q.wf(),
            QuestModel::Pickup(q) => q.wf(),
            QuestModel::Compound(c) => c.wf(),
        }
    }

    pub open spec fn spec_update(self, ev: EventModel) -> QuestModel {
        match self {
            QuestModel::Step(q) => QuestModel::Step(q.spec_update(ev)),
            QuestModel::Pickup(q) => QuestModel::Pickup(q.spec_update(ev)),
            QuestModel::Compound(c) => QuestModel::Compound(c.spec_update(ev)),
        }
    }

    pub open spec fn spec_status(self) -> QuestStatus {
        match self {
            QuestModel::Step(q) => q.progress.status,
            QuestModel::Pickup(q) => q.progress.status,
            QuestModel::Compound(c) => c.progress.status,
        }
    }
}

/// Any quest the game can hold, as one closed type.
#[derive(Debug, Clone, PartialEq, Eq)]
pub enum GameQuest {
    Step(StepQuest),
    Pickup(PickupQuest),
    Compound(CompoundQuest),
}

impl View for GameQuest {
    type V = QuestModel;

    open spec fn view(&self) -> QuestModel {
        match self {
            GameQuest::Step(q) => QuestModel::Step(*q),
            GameQuest::Pickup(q) => QuestModel::Pickup(*q),
            GameQuest::Compound(c) => QuestModel::Compound(c@),
        }
    }
}

impl GameQuest {
    pub open spec fn wf(self) -> bool {
        self@.wf()
    }
}

impl Reset for GameQuest {
    fn reset(&mut self)
        ensures
            final(self)@ == (match old(self)@ {
                QuestModel::Step(q) => QuestModel::Step(
                    StepQuest { progress: q.progress.spec_reset(), ..q },
                ),
                QuestModel::Pickup(q) => QuestModel::Pickup(
                    PickupQuest { progress: q.progress.spec_reset(), ..q },
                ),
                QuestModel::Compound(c) => QuestModel::Compound(
                    CompoundModel { progress: c.progress.spec_reset(), ..c },
                ),
            }),
    {
        match self {
            GameQuest::Step(q) => q.reset(),
            GameQuest::Pickup(q) => q.reset(),
            GameQuest::Compound(c) => c.reset(),
        }
    }
}

impl Quest<Event> for GameQuest {
    fn update(&mut self, event: &Event)
        ensures
            final(self)@ == old(self)@.spec_update(event@),
            old(self).wf() ==> final(self).wf(),
    {
        match self {
            GameQuest::Step(q) => q.update(event),
            GameQuest::Pickup(q) => q.update(event),
            GameQuest::Compound(c) => c.update(event),
        }
    }

    fn status(&self) -> (r: QuestStatus)
        ensures
            r == self@.spec_status(),
    {
        match self {
            GameQuest::Step(q) => q.status(),
            GameQuest::Pickup(q) => q.status(),
            GameQuest::Compound(c) => c.status(),
        }
    }

    fn is_completed(&self) -> (r: bool)
        ensures
            r <==> self@.spec_status() is Completed,
    {
        match self {
            GameQuest::Step(q) => q.is_completed(),
            GameQuest::Pickup(q) => q.is_completed(),
            GameQuest::Compound(c) => c.is_completed(),
        }
    }
}

/// One event delivered to every quest, in order.
pub open spec fn spec_apply_event(qs: Seq<QuestModel>, ev: EventModel) -> Seq<QuestModel> {
    qs.map_values(|q: QuestModel| q.spec_update(ev))
}

/// A whole event log delivered to every quest, events oldest first.
pub open spec fn spec_apply_events(qs: Seq<QuestModel>, evs: Seq<EventModel>) -> Seq<QuestModel>
    decreases evs.len(),
{
    if evs.len() == 0 {
        qs
    } else {
        spec_apply_events(spec_apply_event(qs, evs[0]), evs.drop_first())
    }
}

/// Delivering one more event at the end of a log is delivering the log and
/// then that event.
pub proof fn lemma_apply_events_snoc(qs: Seq<QuestModel>, evs: Seq<EventModel>, ev: EventModel)
    ensures
        spec_apply_events(qs, evs.push(ev)) == spec_apply_event(spec_apply_events(qs, evs), ev),
    decreases evs.len(),
{
    let snoc = evs.push(ev);
    if evs.len() == 0 {
        assert(snoc.drop_first() =~= Seq::<EventModel>::empty());
        assert(snoc[0] == ev);
        assert(spec_apply_events(qs, snoc) == spec_apply_events(
            spec_apply_event(qs, ev),
            snoc.drop_first(),
        ));
        assert(spec_apply_events(spec_apply_event(qs, ev), snoc.drop_first()) == spec_apply_event(
            qs,
            ev,
        ));
        assert(spec_apply_events(qs, evs) == qs);
    } else {
        assert(snoc.drop_first() =~= evs.drop_first().push(ev));
        assert(snoc[0] == evs[0]);
        lemma_apply_events_snoc(spec_apply_event(qs, evs[0]), evs.drop_first(), ev);
        assert(spec_apply_events(qs, snoc) == spec_apply_events(
            spec_apply_event(qs, evs[0]),
            snoc.drop_first(),
        ));
        assert(spec_apply_events(qs, evs) == spec_apply_events(
            spec_apply_event(qs, evs[0]),
            evs.drop_first(),
        ));
    }
}

} // verus!
