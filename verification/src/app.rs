use rand::Rng;
use vstd::prelude::*;
use vstd::pervasive::VecAdditionalExecFns;

use crate::data::Participant;
use crate::list::{sel_model, StatefulList};
use crate::tabs::StatefulTabs;

verus! {

/// The interactive application state: the roster of participants as a
/// navigable list, the accumulated winners, the tab state, and the spin
/// state machine (spin-active flag, remaining-round counter, last declared
/// winner, and the configured round budget).
pub struct App {
    /// Is the application running?
    pub running: bool,
    /// The tab state that gates which view is active.
    pub tabs: StatefulTabs,
    /// The roster; its selection doubles as the spin highlight.
    pub all_participants: StatefulList<Participant>,
    /// Append-only log of declared winners, one entry per completed spin.
    pub all_winners: Vec<Participant>,
    /// Is a spin counting down right now?
    pub is_spinning: bool,
    /// Rounds left before the running spin declares a winner.
    pub spin_counter: usize,
    /// The winner of the last completed spin, until the next start or reset.
    pub spin_winner: Option<Participant>,
    /// How many rounds a freshly started spin animates before finalizing.
    pub round_budget: usize,
}

/// The spin-relevant application state as mathematical values. One driving
/// tick of the application is a function of this model and the random index
/// the tick draws; see [`spin_tick_step`].
#[verifier::ext_equal]
pub struct SpinModel {
    pub roster: Seq<Participant>,
    pub highlight: Option<int>,
    pub log: Seq<Participant>,
    pub is_spinning: bool,
    pub counter: int,
    pub winner: Option<Participant>,
    pub budget: int,
}

/// The entrant as a declared winner: the same name, with the winner flag set.
pub open spec fn winner_of(p: Participant) -> Participant {
    Participant { name: p.name, is_winner: true }
}

/// Which random picks a tick can draw in state `m`: an index into the
/// roster while a spin is running over a non-empty roster, and the dummy
/// value zero otherwise (no index is drawn on a no-op tick).
pub open spec fn pick_ok(m: SpinModel, j: int) -> bool {
    if m.is_spinning && m.roster.len() > 0 {
        0 <= j < m.roster.len()
    } else {
        j == 0
    }
}

/// One driving tick as a function of the state and the drawn index `j`.
/// While not spinning, or over an empty roster, the tick is a no-op. While
/// rounds remain, it highlights `j` and decrements the counter. On the tick
/// after the last round, the participant at `j` becomes the winner: its
/// winner flag is set in the roster, it is appended to the log and recorded,
/// the counter is restored to the budget, and the spin ends.
pub open spec fn spin_tick_step(m: SpinModel, j: int) -> SpinModel {
    if !m.is_spinning || m.roster.len() == 0 {
        m
    } else if m.counter > 0 {
        SpinModel { highlight: Some(j), counter: m.counter - 1, ..m }
    } else {
        SpinModel {
            roster: m.roster.update(j, winner_of(m.roster[j])),
            highlight: Some(j),
            log: m.log.push(winner_of(m.roster[j])),
            is_spinning: false,
            counter: m.budget,
            winner: Some(winner_of(m.roster[j])),
            ..m
        }
    }
}

/// The state after a sequence of ticks drawing the given indices in order.
pub open spec fn run_spin_ticks(m: SpinModel, picks: Seq<int>) -> SpinModel
    decreases picks.len(),
{
    if picks.len() == 0 {
        m
    } else {
        run_spin_ticks(spin_tick_step(m, picks[0]), picks.drop_first())
    }
}

/// Running ticks over a concatenation runs them over each part in turn.
proof fn lemma_run_ticks_split(m: SpinModel, a: Seq<int>, b: Seq<int>)
    ensures
        run_spin_ticks(m, a + b) == run_spin_ticks(run_spin_ticks(m, a), b),
    decreases a.len(),
{
    if a.len() == 0 {
        assert(a + b =~= b);
    } else {
        assert((a + b)[0] == a[0]);
        assert((a + b).drop_first() =~= a.drop_first() + b);
        lemma_run_ticks_split(spin_tick_step(m, a[0]), a.drop_first(), b);
    }
}

/// While rounds remain, ticks only move the highlight and the counter:
/// as long as no more ticks are run than the counter allows, the roster,
/// the log and the winner stay untouched and the spin stays active.
proof fn lemma_spin_countdown(m: SpinModel, picks: Seq<int>)
    requires
        m.is_spinning,
        m.roster.len() > 0,
        picks.len() <= m.counter,
        forall|k: int| 0 <= k < picks.len() ==> 0 <= #[trigger] picks[k] < m.roster.len(),
    ensures
        ({
            let s = run_spin_ticks(m, picks);
            &&& s.is_spinning
            &&& s.roster == m.roster
            &&& s.log == m.log
            &&& s.winner == m.winner
            &&& s.counter == m.counter - picks.len()
            &&& s.budget == m.budget
        }),
    decreases picks.len(),
{
    if picks.len() > 0 {
        let m1 = spin_tick_step(m, picks[0]);
        let rest = picks.drop_first();
        assert forall|k: int| 0 <= k < rest.len() implies 0 <= #[trigger] rest[k]
            < m1.roster.len() by {
            assert(rest[k] == picks[k + 1]);
        }
        lemma_spin_countdown(m1, rest);
    }
}

/// A full spin sequence. From a freshly started spin (active, no winner
/// recorded, roster non-empty, `R` rounds on the counter), running `R + 1`
/// ticks stays within the spin for the first `R` of them — the log grows by
/// nothing and no winner is declared — and the final tick alone declares
/// exactly one winner: the roster entry at the last drawn index, its winner
/// flag set, appended exactly once to the log, recorded as the winner, with
/// the counter restored to the round budget and the spin no longer active.
pub proof fn lemma_full_spin(m: SpinModel, picks: Seq<int>)
    requires
        m.is_spinning,
        m.winner is None,
        m.roster.len() > 0,
        m.counter >= 0,
        picks.len() == m.counter + 1,
        forall|k: int| 0 <= k < picks.len() ==> 0 <= #[trigger] picks[k] < m.roster.len(),
    ensures
        forall|k: int|
            0 <= k <= m.counter ==> {
                let s = #[trigger] run_spin_ticks(m, picks.take(k));
                s.is_spinning && s.log == m.log && s.winner is None
            },
        ({
            let s = run_spin_ticks(m, picks);
            let w = winner_of(m.roster[picks.last()]);
            &&& !s.is_spinning
            &&& s.winner == Some(w)
            &&& w.is_winner
            &&& s.log == m.log.push(w)
            &&& s.log.len() == m.log.len() + 1
            &&& s.roster == m.roster.update(picks.last(), w)
            &&& s.counter == m.budget
        }),
{
    assert forall|k: int| 0 <= k <= m.counter implies {
        let s = #[trigger] run_spin_ticks(m, picks.take(k));
        s.is_spinning && s.log == m.log && s.winner is None
    } by {
        let part = picks.take(k);
        assert forall|x: int| 0 <= x < part.len() implies 0 <= #[trigger] part[x]
            < m.roster.len() by {
            assert(part[x] == picks[x]);
        }
        lemma_spin_countdown(m, part);
    }
    let n = picks.len() as int;
    let front = picks.take(n - 1);
    let back = seq![picks[n - 1]];
    assert forall|x: int| 0 <= x < front.len() implies 0 <= #[trigger] front[x]
        < m.roster.len() by {
        assert(front[x] == picks[x]);
    }
    lemma_spin_countdown(m, front);
    assert(picks =~= front + back);
    lemma_run_ticks_split(m, front, back);
    let s1 = run_spin_ticks(m, front);
    let s2 = spin_tick_step(s1, picks[n - 1]);
    assert(back[0] == picks[n - 1]);
    assert(back.drop_first() =~= Seq::<int>::empty());
    assert(run_spin_ticks(s2, Seq::<int>::empty()) == s2);
    assert(run_spin_ticks(s1, back) == s2);
}

/// Ticks run while no spin is active change nothing, however many there are.
pub proof fn lemma_ticks_idle(m: SpinModel, picks: Seq<int>)
    requires
        !m.is_spinning,
    ensures
        run_spin_ticks(m, picks) == m,
    decreases picks.len(),
{
    if picks.len() > 0 {
        lemma_ticks_idle(m, picks.drop_first());
    }
}

/// Relies on rand: `thread_rng` hands back the thread-local generator, and
/// `Rng::gen_range` over the half-open range below `len` returns a uniform
/// index inside that range; it would panic only on an empty range, which the
/// precondition rules out. Nothing more can be promised of a random draw.
#[verifier::external_body]
fn random_index(len: usize) -> (r: usize)
    requires
        len > 0,
    ensures
        r < len,
{
    rand::thread_rng().gen_range(0..len)
}

impl App {
    /// Well-formed: the parts are well-formed, and a winner is recorded only
    /// while no spin is active, always with its winner flag set.
    pub open spec fn wf(self) -> bool {
        &&& self.tabs.wf()
        &&& self.all_participants.wf()
        &&& self.is_spinning ==> self.spin_winner is None
        &&& self.spin_winner matches Some(w) ==> w.is_winner
    }

    /// The spin-relevant state as mathematical values.
    pub open spec fn spin_model(self) -> SpinModel {
        SpinModel {
            roster: self.all_participants.items@,
            highlight: sel_model(self.all_participants.selected),
            log: self.all_winners@,
            is_spinning: self.is_spinning,
            counter: self.spin_counter as int,
            winner: self.spin_winner,
            budget: self.round_budget as int,
        }
    }

    /// A fresh application over the given roster, not spinning, with an
    /// empty winner log and the given round budget per spin.
    pub fn new(participants: Vec<Participant>, round_budget: usize) -> (app: App)
        ensures
            app.wf(),
            app.running,
            app.tabs.titles@.len() == 2,
            app.tabs.titles@[0]@ == "Home"@,
            app.tabs.titles@[1]@ == "Participants"@,
            app.tabs.active == 0,
            app.all_participants.items == participants,
            app.all_participants.selected is None,
            app.all_winners@ == Seq::<Participant>::empty(),
            !app.is_spinning,
            app.spin_counter == 0,
            app.spin_winner is None,
            app.round_budget == round_budget,
    {
        let mut tab_titles: Vec<String> = Vec::new();
        tab_titles.push("Home".to_owned());
        tab_titles.push("Participants".to_owned());
        App {
            running: true,
            tabs: StatefulTabs::new(tab_titles),
            all_participants: StatefulList::new(participants),
            all_winners: Vec::new(),
            is_spinning: false,
            spin_counter: 0,
            spin_winner: None,
            round_budget,
        }
    }

    /// Stop the event loop: clears the running flag and nothing else.
    pub fn quit(&mut self)
        ensures
            !final(self).running,
            final(self).tabs == old(self).tabs,
            final(self).all_participants == old(self).all_participants,
            final(self).all_winners == old(self).all_winners,
            final(self).is_spinning == old(self).is_spinning,
            final(self).spin_counter == old(self).spin_counter,
            final(self).spin_winner == old(self).spin_winner,
            final(self).round_budget == old(self).round_budget,
    {
        self.running = false;
    }

    /// Handle one clock pulse: forwards to [`App::spin_round`].
    pub fn tick(&mut self)
        requires
            old(self).wf(),
        ensures
            final(self).wf(),
            final(self).running == old(self).running,
            final(self).tabs == old(self).tabs,
            final(self).round_budget == old(self).round_budget,
            exists|j: int|
                #[trigger] pick_ok(old(self).spin_model(), j) && final(self).spin_model()
                    == spin_tick_step(old(self).spin_model(), j),
            !old(self).is_spinning || old(self).all_participants.items@.len() == 0 ==> *final(self)
                == *old(self),
            (old(self).is_spinning && old(self).all_participants.items@.len() > 0 && old(
                self,
            ).spin_counter > 0) ==> {
                &&& final(self).is_spinning
                &&& final(self).spin_counter == old(self).spin_counter - 1
                &&& final(self).spin_winner == old(self).spin_winner
                &&& final(self).all_winners == old(self).all_winners
                &&& final(self).all_participants.items == old(self).all_participants.items
                &&& final(self).all_participants.selected matches Some(h) && (h as int) < old(
                    self,
                ).all_participants.items@.len()
            },
            (old(self).is_spinning && old(self).all_participants.items@.len() > 0 && old(
                self,
            ).spin_counter == 0) ==> {
                &&& !final(self).is_spinning
                &&& final(self).spin_counter == old(self).round_budget
                &&& final(self).all_winners@.len() == old(self).all_winners@.len() + 1
                &&& exists|h: int|
                    {
                        &&& 0 <= h < old(self).all_participants.items@.len()
                        &&& final(self).spin_winner == Some(
                            winner_of(#[trigger] old(self).all_participants.items@[h]),
                        )
                        &&& final(self).all_winners@ == old(self).all_winners@.push(
                            winner_of(old(self).all_participants.items@[h]),
                        )
                        &&& final(self).all_participants.items@ == old(
                            self,
                        ).all_participants.items@.update(
                            h,
                            winner_of(old(self).all_participants.items@[h]),
                        )
                    }
            },
    {
        self.spin_round()
    }

    /// Start a spin: allowed only over a non-empty roster, and a silent
    /// no-op otherwise. Restores the counter to the round budget, clears any
    /// previous winner and sets the spin active; the log is untouched.
    pub fn start_spin(&mut self)
        requires
            old(self).wf(),
        ensures
            final(self).wf(),
            old(self).all_participants.items@.len() == 0 ==> *final(self) == *old(self),
            !old(self).is_spinning && old(self).all_participants.items@.len() == 0
                ==> !final(self).is_spinning,
            old(self).all_participants.items@.len() > 0 ==> {
                &&& final(self).is_spinning
                &&& final(self).spin_counter == old(self).round_budget
                &&& final(self).spin_winner is None
                &&& final(self).all_participants == old(self).all_participants
                &&& final(self).all_winners == old(self).all_winners
                &&& final(self).running == old(self).running
                &&& final(self).tabs == old(self).tabs
                &&& final(self).round_budget == old(self).round_budget
            },
    {
        if self.all_participants.items.len() == 0 {
            return ;
        }
        self.spin_counter = self.round_budget;
        self.spin_winner = None;
        self.is_spinning = true;
    }

    /// Perform one unit of spin work, as [`spin_tick_step`] describes: a
    /// no-op while not spinning or over an empty roster; otherwise draw a
    /// fresh random index against the current roster length, highlight it,
    /// and either count a round down or declare the winner.
    pub fn spin_round(&mut self)
        requires
            old(self).wf(),
        ensures
            final(self).wf(),
            final(self).running == old(self).running,
            final(self).tabs == old(self).tabs,
            final(self).round_budget == old(self).round_budget,
            exists|j: int|
                #[trigger] pick_ok(old(self).spin_model(), j) && final(self).spin_model()
                    == spin_tick_step(old(self).spin_model(), j),
            !old(self).is_spinning || old(self).all_participants.items@.len() == 0 ==> *final(self)
                == *old(self),
            (old(self).is_spinning && old(self).all_participants.items@.len() > 0 && old(
                self,
            ).spin_counter > 0) ==> {
                &&& final(self).is_spinning
                &&& final(self).spin_counter == old(self).spin_counter - 1
                &&& final(self).spin_winner == old(self).spin_winner
                &&& final(self).all_winners == old(self).all_winners
                &&& final(self).all_participants.items == old(self).all_participants.items
                &&& final(self).all_participants.selected matches Some(h) && (h as int) < old(
                    self,
                ).all_participants.items@.len()
            },
            (old(self).is_spinning && old(self).all_participants.items@.len() > 0 && old(
                self,
            ).spin_counter == 0) ==> {
                &&& !final(self).is_spinning
                &&& final(self).spin_counter == old(self).round_budget
                &&& final(self).all_winners@.len() == old(self).all_winners@.len() + 1
                &&& exists|h: int|
                    {
                        &&& 0 <= h < old(self).all_participants.items@.len()
                        &&& final(self).spin_winner == Some(
                            winner_of(#[trigger] old(self).all_participants.items@[h]),
                        )
                        &&& final(self).all_winners@ == old(self).all_winners@.push(
                            winner_of(old(self).all_participants.items@[h]),
                        )
                        &&& final(self).all_participants.items@ == old(
                            self,
                        ).all_participants.items@.update(
                            h,
                            winner_of(old(self).all_participants.items@[h]),
                        )
                    }
            },
    {
        if !self.is_spinning {
            proof {
                let m = old(self).spin_model();
                assert(pick_ok(m, 0) && self.spin_model() == spin_tick_step(m, 0));
            }
            return ;
        }
        let len = self.all_participants.items.len();
        if len == 0 {
            proof {
                let m = old(self).spin_model();
                assert(pick_ok(m, 0) && self.spin_model() == spin_tick_step(m, 0));
            }
            return ;
        }
        let j = random_index(len);
        self.all_participants.select(j);
        if self.spin_counter > 0 {
            self.spin_counter = self.spin_counter - 1;
            proof {
                let m = old(self).spin_model();
                assert(self.spin_model() =~= spin_tick_step(m, j as int));
                assert(pick_ok(m, j as int));
            }
            return ;
        }
        let w = Participant { name: self.all_participants.items[j].name.clone(), is_winner: true };
        self.all_participants.items.set(j, w.clone());
        self.spin_winner = Some(w.clone());
        self.all_winners.push(w);
        self.spin_counter = self.round_budget;
        self.is_spinning = false;
        proof {
            let m = old(self).spin_model();
            assert(self.spin_model().roster =~= spin_tick_step(m, j as int).roster);
            assert(self.spin_model().log =~= spin_tick_step(m, j as int).log);
            assert(self.spin_model() =~= spin_tick_step(m, j as int));
            assert(pick_ok(m, j as int));
            let orost = old(self).all_participants.items@;
            assert((j as int) < orost.len() && self.spin_winner == Some(
                winner_of(orost[j as int]),
            ) && self.all_winners@ == old(self).all_winners@.push(winner_of(orost[j as int]))
                && self.all_participants.items@ == orost.update(
                j as int,
                winner_of(orost[j as int]),
            ));
        }
    }

    /// Abort the running spin without declaring a winner: clears the
    /// spin-active flag and touches nothing else.
    pub fn stop_spin(&mut self)
        requires
            old(self).wf(),
        ensures
            final(self).wf(),
            !final(self).is_spinning,
            final(self).running == old(self).running,
            final(self).tabs == old(self).tabs,
            final(self).all_participants == old(self).all_participants,
            final(self).all_winners == old(self).all_winners,
            final(self).spin_counter == old(self).spin_counter,
            final(self).spin_winner == old(self).spin_winner,
            final(self).round_budget == old(self).round_budget,
    {
        self.is_spinning = false;
    }

    /// Return the spin to idle, whatever the prior state: no spin active,
    /// no winner recorded, and the counter restored to the round budget.
    /// The winner log is untouched. Idempotent.
    pub fn reset_spin(&mut self)
        requires
            old(self).wf(),
        ensures
            final(self).wf(),
            !final(self).is_spinning,
            final(self).spin_winner is None,
            final(self).spin_counter == old(self).round_budget,
            final(self).running == old(self).running,
            final(self).tabs == old(self).tabs,
            final(self).all_participants == old(self).all_participants,
            final(self).all_winners == old(self).all_winners,
            final(self).round_budget == old(self).round_budget,
    {
        self.stop_spin();
        self.spin_counter = self.round_budget;
        self.spin_winner = None;
    }
}

} // verus!
