//! The progress panel of the push and release windows: its step rows, the
//! count of finished steps behind its progress bar, its error log, and whether
//! a run is going on. A run starts from the panel's button and is then driven
//! by the worker's messages.

use vstd::prelude::*;
use crate::aur_push_gui::labels::{row_view, rows_view, StepRow};
use crate::aur_push_gui::worker::{StepState, WorkerMsg, WorkerMsgV};
use crate::text::{chars_of, string_of, trim, trim_ws};

verus! {

broadcast use vstd::string::group_string_axioms;

/// The state shown by a step row.
#[derive(Clone, Copy, Debug, PartialEq, Eq, Structural)]
pub enum RowState {
    Waiting,
    Running,
    Succeeded,
    Failed,
}

/// A step row: its key, its state, and the detail shown under it.
pub struct RowStatus {
    pub key: String,
    pub state: RowState,
    pub detail: String,
}

/// The panel.
pub struct Panel {
    pub rows: Vec<RowStatus>,
    /// The number of shown steps (the progress bar is full at this count).
    pub total: u64,
    /// Steps reported done in this run.
    pub done: u64,
    /// A worker is running.
    pub running: bool,
    /// How the last run ended, once it has.
    pub outcome: Option<bool>,
    /// Tool output shown in the error area.
    pub log: Vec<String>,
}

pub open spec fn status_view(r: RowStatus) -> (Seq<char>, RowState, Seq<char>) {
    (r.key@, r.state, r.detail@)
}

pub open spec fn statuses(rows: Seq<RowStatus>) -> Seq<(Seq<char>, RowState, Seq<char>)> {
    rows.map_values(|r: RowStatus| status_view(r))
}

/// The number of shown rows.
pub open spec fn shown(rows: Seq<(Seq<char>, Seq<char>, bool)>) -> nat
    decreases rows.len(),
{
    if rows.len() == 0 {
        0
    } else {
        shown(rows.drop_last()) + if rows.last().2 {
            1nat
        } else {
            0nat
        }
    }
}

/// The index of the first row with `key`.
pub open spec fn first_row(rows: Seq<(Seq<char>, RowState, Seq<char>)>, key: Seq<char>) -> Option<
    int,
>
    decreases rows.len(),
{
    if rows.len() == 0 {
        None
    } else {
        match first_row(rows.drop_last(), key) {
            Some(i) => Some(i),
            None => if rows.last().0 == key {
                Some(rows.len() - 1)
            } else {
                None
            },
        }
    }
}

/// A row after a step message: running clears the detail, success keeps it,
/// an error shows its detail when it has one.
pub open spec fn row_after(
    row: (Seq<char>, RowState, Seq<char>),
    state: StepState,
    detail: Seq<char>,
) -> (Seq<char>, RowState, Seq<char>) {
    match state {
        StepState::Start => (row.0, RowState::Running, seq![]),
        StepState::Succeeded => (row.0, RowState::Succeeded, row.2),
        StepState::Error => (row.0, RowState::Failed, if detail.len() > 0 {
            detail
        } else {
            row.2
        }),
    }
}

/// The rows after a step message: the first row with its key changes; a
/// message for a key without a row changes nothing.
pub open spec fn rows_after(
    rows: Seq<(Seq<char>, RowState, Seq<char>)>,
    key: Seq<char>,
    state: StepState,
    detail: Seq<char>,
) -> Seq<(Seq<char>, RowState, Seq<char>)> {
    match first_row(rows, key) {
        Some(i) => rows.update(i, row_after(rows[i], state, detail)),
        None => rows,
    }
}

/// The finished-step count after a step message: one more for a success of a
/// step that has a row (it stops at the largest count).
pub open spec fn done_after(
    rows: Seq<(Seq<char>, RowState, Seq<char>)>,
    done: u64,
    key: Seq<char>,
    state: StepState,
) -> u64 {
    if state is Succeeded && first_row(rows, key) is Some && done < u64::MAX {
        (done + 1) as u64
    } else {
        done
    }
}

/// The log after a log line: the line, trimmed, unless it is blank.
pub open spec fn log_after(log: Seq<Seq<char>>, line: Seq<char>) -> Seq<Seq<char>> {
    if trim(line).len() > 0 {
        log.push(trim(line))
    } else {
        log
    }
}

proof fn lemma_first_row_found(rows: Seq<(Seq<char>, RowState, Seq<char>)>, key: Seq<char>)
    ensures
        first_row(rows, key) matches Some(i) ==> 0 <= i < rows.len() && rows[i].0 == key,
        first_row(rows, key) is None ==> forall|j: int| 0 <= j < rows.len() ==> #[trigger] rows[j].0 != key,
    decreases rows.len(),
{
    if rows.len() > 0 {
        lemma_first_row_found(rows.drop_last(), key);
        if first_row(rows.drop_last(), key) is None {
            assert forall|j: int| 0 <= j < rows.len() - 1 implies #[trigger] rows[j].0 != key by {
                assert(rows[j] == rows.drop_last()[j]);
            }
        } else {
            let i = first_row(rows.drop_last(), key)->0;
            assert(rows[i] == rows.drop_last()[i]);
        }
    }
}

proof fn lemma_first_row_at(rows: Seq<(Seq<char>, RowState, Seq<char>)>, key: Seq<char>, i: int)
    requires
        0 <= i < rows.len(),
        rows[i].0 == key,
        forall|j: int| 0 <= j < i ==> #[trigger] rows[j].0 != key,
    ensures
        first_row(rows, key) == Some(i),
    decreases rows.len(),
{
    if i < rows.len() - 1 {
        assert forall|j: int| 0 <= j < i implies #[trigger] rows.drop_last()[j].0 != key by {
            assert(rows.drop_last()[j] == rows[j]);
        }
        assert(rows.drop_last()[i] == rows[i]);
        lemma_first_row_at(rows.drop_last(), key, i);
    } else {
        lemma_first_row_found(rows.drop_last(), key);
        if let Some(k) = first_row(rows.drop_last(), key) {
            assert(rows.drop_last()[k] == rows[k]);
        }
    }
}

impl Panel {
    /// A panel with one waiting row per step; its total is the number of
    /// shown steps.
    pub fn new(steps: &Vec<StepRow>) -> (p: Panel)
        ensures
            statuses(p.rows@) == rows_view(steps@).map_values(
                |r: (Seq<char>, Seq<char>, bool)| (r.0, RowState::Waiting, Seq::<char>::empty()),
            ),
            p.total == shown(rows_view(steps@)),
            p.done == 0,
            !p.running,
            p.outcome is None,
            p.log@.len() == 0,
    {
        let mut rows: Vec<RowStatus> = Vec::new();
        let mut total: u64 = 0;
        let mut i: usize = 0;
        let ghost all = rows_view(steps@);
        assert(all.take(0) =~= Seq::<(Seq<char>, Seq<char>, bool)>::empty());
        while i < steps.len()
            invariant
                i <= steps.len(),
                all == rows_view(steps@),
                statuses(rows@) == all.take(i as int).map_values(
                    |r: (Seq<char>, Seq<char>, bool)| (r.0, RowState::Waiting, Seq::<char>::empty()),
                ),
                total == shown(all.take(i as int)),
                total <= i,
            decreases steps.len() - i,
        {
            let s = &steps[i];
            let ghost before = rows@;
            let row = RowStatus { key: s.key.to_string(), state: RowState::Waiting, detail: String::new() };
            assert(status_view(row) == (all[i as int].0, RowState::Waiting, Seq::<char>::empty()));
            rows.push(row);
            assert(rows@ == before.push(row));
            assert(statuses(rows@) =~= statuses(before).push(status_view(row)));
            assert(all.take(i + 1).drop_last() =~= all.take(i as int));
            assert(all.take(i + 1).last() == row_view(steps@[i as int]));
            if s.visible {
                total = total + 1;
            }
            assert(statuses(rows@) =~= all.take(i + 1).map_values(
                |r: (Seq<char>, Seq<char>, bool)| (r.0, RowState::Waiting, Seq::<char>::empty()),
            ));
            i += 1;
        }
        assert(all.take(steps.len() as int) =~= all);
        Panel { rows, total, done: 0, running: false, outcome: None, log: Vec::new() }
    }

    /// The run button: a panel that is not running starts a run (every row
    /// waiting, no finished step, no log, no outcome) and returns `true`; a
    /// running panel is left as it is and returns `false`.
    pub fn start(&mut self) -> (started: bool)
        ensures
            started == !old(self).running,
            old(self).running ==> *final(self) == *old(self),
            !old(self).running ==> {
                &&& final(self).running
                &&& final(self).done == 0
                &&& final(self).outcome is None
                &&& final(self).log@.len() == 0
                &&& final(self).total == old(self).total
                &&& statuses(final(self).rows@) == statuses(old(self).rows@).map_values(
                    |r: (Seq<char>, RowState, Seq<char>)| (r.0, RowState::Waiting, Seq::<char>::empty()),
                )
            },
    {
        if self.running {
            return false;
        }
        let mut rows: Vec<RowStatus> = Vec::new();
        let mut i: usize = 0;
        let ghost all = statuses(self.rows@);
        assert(all.take(0) =~= Seq::<(Seq<char>, RowState, Seq<char>)>::empty());
        while i < self.rows.len()
            invariant
                i <= self.rows.len(),
                all == statuses(self.rows@),
                statuses(rows@) == all.take(i as int).map_values(
                    |r: (Seq<char>, RowState, Seq<char>)| (r.0, RowState::Waiting, Seq::<char>::empty()),
                ),
            decreases self.rows.len() - i,
        {
            let ghost before = rows@;
            let row = RowStatus { key: self.rows[i].key.clone(), state: RowState::Waiting, detail: String::new() };
            assert(status_view(row) == (all[i as int].0, RowState::Waiting, Seq::<char>::empty()));
            rows.push(row);
            assert(rows@ == before.push(row));
            assert(statuses(rows@) =~= statuses(before).push(status_view(row)));
            assert(all.take(i + 1).drop_last() =~= all.take(i as int));
            assert(statuses(rows@) =~= all.take(i + 1).map_values(
                |r: (Seq<char>, RowState, Seq<char>)| (r.0, RowState::Waiting, Seq::<char>::empty()),
            ));
            i += 1;
        }
        assert(all.take(self.rows.len() as int) =~= all);
        self.rows = rows;
        self.done = 0;
        self.running = true;
        self.outcome = None;
        self.log = Vec::new();
        true
    }

    /// The back button is refused while a run is going on.
    pub fn can_go_back(&self) -> (b: bool)
        ensures
            b == !self.running,
    {
        !self.running
    }

    fn find_row(&self, key: &String) -> (r: Option<usize>)
        ensures
            r matches Some(i) ==> first_row(statuses(self.rows@), key@) == Some(i as int),
            r is None ==> first_row(statuses(self.rows@), key@) is None,
    {
        let ghost all = statuses(self.rows@);
        let mut i: usize = 0;
        while i < self.rows.len()
            invariant
                i <= self.rows.len(),
                all == statuses(self.rows@),
                forall|j: int| 0 <= j < i ==> #[trigger] all[j].0 != key@,
            decreases self.rows.len() - i,
        {
            if self.rows[i].key == *key {
                proof {
                    lemma_first_row_at(all, key@, i as int);
                }
                return Some(i);
            }
            i += 1;
        }
        proof {
            lemma_first_row_found(all, key@);
            if let Some(k) = first_row(all, key@) {
                assert(all[k].0 == key@);
            }
        }
        None
    }

    /// Takes a worker message: a step message moves its row (and counts a
    /// success), a log line goes to the error area, the end stops the run.
    /// The search for a step's row stops at the first row with its key, so
    /// when two rows share a key only the first one moves and a success is
    /// counted once.
    pub fn handle(&mut self, msg: WorkerMsg)
        ensures
            final(self).total == old(self).total,
            match msg@ {
                WorkerMsgV::Step { key, state, detail } => {
                    &&& statuses(final(self).rows@) == rows_after(statuses(old(self).rows@), key, state, detail)
                    &&& final(self).done == done_after(statuses(old(self).rows@), old(self).done, key, state)
                    &&& final(self).running == old(self).running
                    &&& final(self).outcome == old(self).outcome
                    &&& final(self).log.deep_view() == old(self).log.deep_view()
                },
                WorkerMsgV::Log(line) => {
                    &&& statuses(final(self).rows@) == statuses(old(self).rows@)
                    &&& final(self).done == old(self).done
                    &&& final(self).running == old(self).running
                    &&& final(self).outcome == old(self).outcome
                    &&& final(self).log.deep_view() == log_after(old(self).log.deep_view(), line)
                },
                WorkerMsgV::Done(ok) => {
                    &&& statuses(final(self).rows@) == statuses(old(self).rows@)
                    &&& final(self).done == old(self).done
                    &&& !final(self).running
                    &&& final(self).outcome == Some(ok)
                    &&& final(self).log.deep_view() == old(self).log.deep_view()
                },
            },
    {
        match msg {
            WorkerMsg::Step { key, state, detail } => {
                let ghost all = statuses(self.rows@);
                match self.find_row(&key) {
                    Some(i) => {
                        proof {
                            lemma_first_row_found(all, key@);
                        }
                        let old_detail = self.rows[i].detail.clone();
                        let row_key = self.rows[i].key.clone();
                        let new_row = match state {
                            StepState::Start => RowStatus {
                                key: row_key,
                                state: RowState::Running,
                                detail: String::new(),
                            },
                            StepState::Succeeded => RowStatus {
                                key: row_key,
                                state: RowState::Succeeded,
                                detail: old_detail,
                            },
                            StepState::Error => RowStatus {
                                key: row_key,
                                state: RowState::Failed,
                                detail: if detail.as_str().is_empty() {
                                    old_detail
                                } else {
                                    detail
                                },
                            },
                        };
                        self.rows.set(i, new_row);
                        assert(statuses(self.rows@) =~= rows_after(all, key@, state, detail@));
                        if matches!(state, StepState::Succeeded) && self.done < u64::MAX {
                            self.done = self.done + 1;
                        }
                    },
                    None => {},
                }
            },
            WorkerMsg::Log(line) => {
                let t = trim_ws(&chars_of(line.as_str()));
                if t.len() > 0 {
                    self.log.push(string_of(&t));
                    assert(self.log.deep_view() =~= log_after(old(self).log.deep_view(), line@));
                }
            },
            WorkerMsg::Done(ok) => {
                self.running = false;
                self.outcome = Some(ok);
            },
        }
    }
}

} // verus!
