//! The application state machine: job list, selection, focus, modal state,
//! filter mode, and the buffers shown in the right panel.
//!
//! Every mutation of the state flows through the transition methods here.
//! Transitions that need data from the scheduler return an
//! [`AdapterRequest`] naming the call to perform; the caller performs it and
//! hands the result back through [`App::refresh_slurm_jobs`] or
//! [`App::panel_fetched`].

use vstd::prelude::*;
use crate::slurm::SlurmJob;
use crate::slurm::is_active_state;
use crate::slurm::active_jobs;
use crate::slurm::filter_active;

verus! {

/// An ordered sequence of items with an optional selected index.
pub struct StatefulList<T> {
    pub items: Vec<T>,
    pub selected: Option<usize>,
}

/// The selected index after one step towards the end, wrapping to the
/// start; absent only on an empty list.
pub open spec fn next_index(sel: Option<usize>, len: nat) -> Option<usize> {
    if len == 0 {
        Option::None
    } else {
        match sel {
            Option::None => Option::Some(0usize),
            Option::Some(i) => if i + 1 >= len {
                Option::Some(0usize)
            } else {
                Option::Some((i + 1) as usize)
            },
        }
    }
}

/// The selected index after one step towards the start, wrapping to the
/// end; absent only on an empty list.
pub open spec fn prev_index(sel: Option<usize>, len: nat) -> Option<usize> {
    if len == 0 {
        Option::None
    } else {
        match sel {
            Option::None => Option::Some(0usize),
            Option::Some(i) => if i == 0 {
                Option::Some((len - 1) as usize)
            } else {
                Option::Some((i - 1) as usize)
            },
        }
    }
}

/// The selected index after a reload: a previous selection is kept, clamped
/// to the last index; an empty list loses it; a non-empty list gains the
/// first index.
pub open spec fn clamp_index(sel: Option<usize>, len: nat) -> Option<usize> {
    if len == 0 {
        Option::None
    } else {
        match sel {
            Option::None => Option::Some(0usize),
            Option::Some(i) => if i < len {
                Option::Some(i)
            } else {
                Option::Some((len - 1) as usize)
            },
        }
    }
}

impl<T> StatefulList<T> {
    /// An empty list is never selected; a selection is always in range.
    pub open spec fn wf(&self) -> bool {
        &&& (self.items@.len() == 0 ==> self.selected is None)
        &&& (self.selected matches Some(i) ==> i < self.items@.len())
    }

    /// A list over the given items, with nothing selected yet.
    pub fn with_items(items: Vec<T>) -> (r: StatefulList<T>)
        ensures
            r.items@ == items@,
            r.selected is None,
            r.wf(),
    {
        StatefulList { items, selected: None }
    }

    pub fn len(&self) -> (r: usize)
        ensures
            r == self.items@.len(),
    {
        self.items.len()
    }

    /// Moves the selection one step towards the end, wrapping to the start.
    pub fn next(&mut self)
        requires
            old(self).wf(),
        ensures
            final(self).wf(),
            final(self).items == old(self).items,
            final(self).selected == next_index(old(self).selected, old(self).items@.len()),
    {
        if self.items.len() == 0 {
            return;
        }
        let i = match self.selected {
            Some(i) => if i + 1 >= self.items.len() {
                0
            } else {
                i + 1
            },
            None => 0,
        };
        self.selected = Some(i);
    }

    /// Moves the selection one step towards the start, wrapping to the end.
    pub fn previous(&mut self)
        requires
            old(self).wf(),
        ensures
            final(self).wf(),
            final(self).items == old(self).items,
            final(self).selected == prev_index(old(self).selected, old(self).items@.len()),
    {
        if self.items.len() == 0 {
            return;
        }
        let i = match self.selected {
            Some(i) => if i == 0 {
                self.items.len() - 1
            } else {
                i - 1
            },
            None => 0,
        };
        self.selected = Some(i);
    }

    /// Selects the first item, if any.
    pub fn select_first(&mut self)
        requires
            old(self).wf(),
        ensures
            final(self).wf(),
            final(self).items == old(self).items,
            final(self).selected == (if old(self).items@.len() == 0 {
                Option::<usize>::None
            } else {
                Option::Some(0usize)
            }),
    {
        if self.items.len() > 0 {
            self.selected = Some(0);
        }
    }

    /// Selects the last item, if any.
    pub fn select_last(&mut self)
        requires
            old(self).wf(),
        ensures
            final(self).wf(),
            final(self).items == old(self).items,
            final(self).selected == (if old(self).items@.len() == 0 {
                Option::<usize>::None
            } else {
                Option::Some((old(self).items@.len() - 1) as usize)
            }),
    {
        if self.items.len() > 0 {
            self.selected = Some(self.items.len() - 1);
        }
    }
}

/// The selected index after `n` steps towards the end, wrapping past the
/// last index; absent only on an empty list.
pub open spec fn next_index_by(sel: Option<usize>, len: nat, n: nat) -> Option<usize> {
    if len == 0 {
        Option::None
    } else {
        match sel {
            Option::None => Option::Some(0usize),
            Option::Some(i) => Option::Some((((i + n) % (len as int)) as usize)),
        }
    }
}

/// The selected index after `n` steps towards the start, wrapping past the
/// first index; absent only on an empty list.
pub open spec fn prev_index_by(sel: Option<usize>, len: nat, n: nat) -> Option<usize> {
    if len == 0 {
        Option::None
    } else {
        match sel {
            Option::None => Option::Some(0usize),
            Option::Some(i) => Option::Some((((i - n) % (len as int)) as usize)),
        }
    }
}

impl<T> StatefulList<T> {
    /// Moves the selection `n` steps towards the end, wrapping around.
    pub fn next_by(&mut self, n: usize)
        requires
            old(self).wf(),
        ensures
            final(self).wf(),
            final(self).items == old(self).items,
            final(self).selected == next_index_by(old(self).selected, old(self).items@.len(), n as nat),
    {
        let len = self.items.len();
        if len == 0 {
            return;
        }
        let sel = match self.selected {
            None => 0,
            Some(i) => {
                let step = n % len;
                let j = if i >= len - step {
                    i - (len - step)
                } else {
                    i + step
                };
                proof {
                    vstd::arithmetic::div_mod::lemma_add_mod_noop_right(
                        i as int,
                        n as int,
                        len as int,
                    );
                    if i + step >= len {
                        vstd::arithmetic::div_mod::lemma_mod_sub_multiples_vanish(
                            i + step,
                            len as int,
                        );
                    }
                    vstd::arithmetic::div_mod::lemma_small_mod(j as nat, len as nat);
                }
                j
            },
        };
        self.selected = Some(sel);
    }

    /// Moves the selection `n` steps towards the start, wrapping around.
    pub fn previous_by(&mut self, n: usize)
        requires
            old(self).wf(),
        ensures
            final(self).wf(),
            final(self).items == old(self).items,
            final(self).selected == prev_index_by(old(self).selected, old(self).items@.len(), n as nat),
    {
        let len = self.items.len();
        if len == 0 {
            return;
        }
        let sel = match self.selected {
            None => 0,
            Some(i) => {
                let step = n % len;
                let j = if i >= step {
                    i - step
                } else {
                    i + (len - step)
                };
                proof {
                    vstd::arithmetic::div_mod::lemma_sub_mod_noop_right(
                        i as int,
                        n as int,
                        len as int,
                    );
                    if i < step {
                        vstd::arithmetic::div_mod::lemma_mod_add_multiples_vanish(
                            i - step,
                            len as int,
                        );
                    }
                    vstd::arithmetic::div_mod::lemma_small_mod(j as nat, len as nat);
                }
                j
            },
        };
        self.selected = Some(sel);
    }
}

/// Which panel receives navigation keys.
#[derive(Clone, Copy, Debug, PartialEq, Eq, Structural)]
pub enum Focus {
    JobList,
    OutputPanel,
}

/// Which buffer the right panel shows.
#[derive(Clone, Copy, Debug, PartialEq, Eq, Structural)]
pub enum RightPanelFocus {
    Output,
    JobScript,
}

/// An open confirmation dialog.
#[derive(Clone, Copy, Debug, PartialEq, Eq, Structural)]
pub enum Modal {
    ConfirmCancel,
    ConfirmRequeue,
}

/// A call into the scheduler that the caller of a transition must perform.
#[derive(Debug, PartialEq, Eq)]
pub enum AdapterRequest {
    /// Nothing to do.
    Idle,
    /// Run the accounting query and hand its parsed records to
    /// `refresh_slurm_jobs`.
    FetchJobs,
    /// Fetch the captured output of the named job and hand its lines to
    /// `panel_fetched`.
    FetchOutput(String),
    /// Fetch the submission script of the named job and hand its lines to
    /// `panel_fetched`.
    FetchScript(String),
    /// Cancel the named job, then refresh as for `FetchJobs`.
    CancelThenRefresh(String),
    /// Requeue the named job, then refresh as for `FetchJobs`.
    RequeueThenRefresh(String),
}

/// The application state.
pub struct App {
    /// Cluster account whose jobs are listed.
    pub user: String,
    /// Days of history the accounting query asks for.
    pub time_period: usize,
    /// Whether the event loop keeps running.
    pub running: bool,
    /// The authoritative job list.
    pub slurm_jobs: StatefulList<SlurmJob>,
    /// Captured output lines of the selected job.
    pub job_output: StatefulList<String>,
    /// Submission script lines of the selected job.
    pub job_script: StatefulList<String>,
    /// Which panel receives navigation keys.
    pub focus: Focus,
    /// Which buffer the right panel shows.
    pub right_panel_focus: RightPanelFocus,
    /// When set, only running and pending jobs are kept on refresh.
    pub running_only: bool,
    /// The open confirmation dialog, if any.
    pub modal: Option<Modal>,
}

impl App {
    /// The invariants of every reachable state: the three lists are well
    /// formed, an empty job list leaves both buffers empty, and under the
    /// filter every job is running or pending.
    pub open spec fn wf(&self) -> bool {
        &&& self.slurm_jobs.wf()
        &&& self.job_output.wf()
        &&& self.job_script.wf()
        &&& (self.slurm_jobs.items@.len() == 0 ==> self.job_output.items@.len() == 0
            && self.job_script.items@.len() == 0)
        &&& (self.running_only ==> forall|i: int|
            0 <= i < self.slurm_jobs.items@.len() ==> is_active_state(
                #[trigger] self.slurm_jobs.items@[i]@.state,
            ))
    }

    /// The id of the selected job, if one is selected.
    pub open spec fn spec_selected_job_id(&self) -> Option<Seq<char>> {
        match self.slurm_jobs.selected {
            Option::None => Option::None,
            Option::Some(i) => Option::Some(self.slurm_jobs.items@[i as int]@.job_id),
        }
    }
}


/// One navigation step of a list selection.
pub ghost enum NavStep {
    StepUp,
    StepDown,
    StepUpBy(nat),
    StepDownBy(nat),
    Top,
    Bottom,
}

/// The selected index a navigation step yields on a list of length `len`.
pub open spec fn nav_index(step: NavStep, sel: Option<usize>, len: nat) -> Option<usize> {
    match step {
        NavStep::StepUp => prev_index(sel, len),
        NavStep::StepDown => next_index(sel, len),
        NavStep::StepUpBy(n) => prev_index_by(sel, len, n),
        NavStep::StepDownBy(n) => next_index_by(sel, len, n),
        NavStep::Top => if len == 0 {
            Option::<usize>::None
        } else {
            Option::Some(0usize)
        },
        NavStep::Bottom => if len == 0 {
            Option::<usize>::None
        } else {
            Option::Some((len - 1) as usize)
        },
    }
}

/// One navigation transition: a no-op while a modal is open; otherwise the
/// step moves the focused list's selection and nothing else, and for the
/// job list the shown buffer is asked for afresh.
pub open spec fn nav_post(pre: App, post: App, r: AdapterRequest, step: NavStep) -> bool {
    &&& (pre.modal is Some ==> post == pre && r is Idle)
    &&& ((pre.modal is None && pre.focus is JobList) ==> post == (App {
        slurm_jobs: StatefulList {
            items: pre.slurm_jobs.items,
            selected: nav_index(step, pre.slurm_jobs.selected, pre.slurm_jobs.items@.len()),
        },
        ..pre
    }) && panel_fetch_for(post, r))
    &&& ((pre.modal is None && pre.focus is OutputPanel && pre.right_panel_focus is Output)
        ==> post == (App {
        job_output: StatefulList {
            items: pre.job_output.items,
            selected: nav_index(step, pre.job_output.selected, pre.job_output.items@.len()),
        },
        ..pre
    }) && r is Idle)
    &&& ((pre.modal is None && pre.focus is OutputPanel && pre.right_panel_focus is JobScript)
        ==> post == (App {
        job_script: StatefulList {
            items: pre.job_script.items,
            selected: nav_index(step, pre.job_script.selected, pre.job_script.items@.len()),
        },
        ..pre
    }) && r is Idle)
}

/// What a transition that moved the job-list selection asks of its caller:
/// nothing when nothing is selected (both buffers are already empty), else
/// a fetch of the shown buffer for the selected job.
pub open spec fn panel_fetch_for(post: App, r: AdapterRequest) -> bool {
    match post.slurm_jobs.selected {
        Option::None => r is Idle,
        Option::Some(i) => match post.right_panel_focus {
            RightPanelFocus::Output => r matches AdapterRequest::FetchOutput(id) && id@
                == post.slurm_jobs.items@[i as int]@.job_id,
            RightPanelFocus::JobScript => r matches AdapterRequest::FetchScript(id) && id@
                == post.slurm_jobs.items@[i as int]@.job_id,
        },
    }
}

impl App {
    fn selected_fetch(&self) -> (r: AdapterRequest)
        requires
            self.wf(),
        ensures
            panel_fetch_for(*self, r),
    {
        match self.slurm_jobs.selected {
            None => AdapterRequest::Idle,
            Some(i) => {
                let id = self.slurm_jobs.items[i].job_id.clone();
                match self.right_panel_focus {
                    RightPanelFocus::Output => AdapterRequest::FetchOutput(id),
                    RightPanelFocus::JobScript => AdapterRequest::FetchScript(id),
                }
            },
        }
    }

    /// A fresh state for the given account and history window: running, no
    /// jobs yet, empty buffers, list focus, output panel, no filter, no
    /// modal. The first refresh fills the job list.
    pub fn new(user: String, time_period: usize) -> (r: App)
        ensures
            r.user == user,
            r.time_period == time_period,
            r.running,
            r.slurm_jobs.items@.len() == 0,
            r.slurm_jobs.selected is None,
            r.job_output.items@.len() == 0,
            r.job_script.items@.len() == 0,
            r.focus is JobList,
            r.right_panel_focus is Output,
            !r.running_only,
            r.modal is None,
            r.wf(),
    {
        App {
            user,
            time_period,
            running: true,
            slurm_jobs: StatefulList::with_items(Vec::new()),
            job_output: StatefulList::with_items(Vec::new()),
            job_script: StatefulList::with_items(Vec::new()),
            focus: Focus::JobList,
            right_panel_focus: RightPanelFocus::Output,
            running_only: false,
            modal: None,
        }
    }

    /// Hook for periodic work; changes nothing.
    pub fn tick(&self) {
    }

    /// Stops the event loop.
    pub fn quit(&mut self)
        ensures
            *final(self) == (App { running: false, ..*old(self) }),
    {
        self.running = false;
    }

    /// Stores a reloaded job list: keeps a previous selection clamped into
    /// range, clears it on an empty list, selects the first item where none
    /// was selected, and clears both buffers when nothing is selected.
    fn store_jobs(&mut self, kept: Vec<SlurmJob>) -> (r: AdapterRequest)
        requires
            old(self).job_output.wf(),
            old(self).job_script.wf(),
            old(self).running_only ==> forall|i: int|
                0 <= i < kept@.len() ==> is_active_state(#[trigger] kept@[i]@.state),
        ensures
            final(self).wf(),
            final(self).slurm_jobs.items@ == kept@,
            final(self).slurm_jobs.selected == clamp_index(
                old(self).slurm_jobs.selected,
                kept@.len(),
            ),
            final(self).slurm_jobs.selected is None ==> final(self).job_output.items@.len() == 0
                && final(self).job_script.items@.len() == 0,
            final(self).slurm_jobs.selected is Some ==> final(self).job_output == old(
                self,
            ).job_output && final(self).job_script == old(self).job_script,
            panel_fetch_for(*final(self), r),
            final(self).user == old(self).user,
            final(self).time_period == old(self).time_period,
            final(self).running == old(self).running,
            final(self).focus == old(self).focus,
            final(self).right_panel_focus == old(self).right_panel_focus,
            final(self).running_only == old(self).running_only,
            final(self).modal == old(self).modal,
    {
        let len = kept.len();
        let sel = if len == 0 {
            None
        } else {
            match self.slurm_jobs.selected {
                None => Some(0),
                Some(i) => if i < len {
                    Some(i)
                } else {
                    Some(len - 1)
                },
            }
        };
        self.slurm_jobs = StatefulList { items: kept, selected: sel };
        match sel {
            None => {
                self.job_output = StatefulList::with_items(Vec::new());
                self.job_script = StatefulList::with_items(Vec::new());
                AdapterRequest::Idle
            },
            Some(_) => self.selected_fetch(),
        }
    }

    /// Reloads the job list from a fetched record sequence, discarding
    /// non-running, non-pending jobs while the filter is on, and asks for
    /// the shown buffer of the job now selected.
    pub fn refresh_slurm_jobs(&mut self, fetched: Vec<SlurmJob>) -> (r: AdapterRequest)
        requires
            old(self).wf(),
        ensures
            final(self).wf(),
            final(self).slurm_jobs.items@ == (if old(self).running_only {
                active_jobs(fetched@)
            } else {
                fetched@
            }),
            final(self).slurm_jobs.selected == clamp_index(
                old(self).slurm_jobs.selected,
                final(self).slurm_jobs.items@.len(),
            ),
            final(self).slurm_jobs.selected is None ==> final(self).job_output.items@.len() == 0
                && final(self).job_script.items@.len() == 0 && r is Idle,
            final(self).slurm_jobs.selected is Some ==> final(self).job_output == old(
                self,
            ).job_output && final(self).job_script == old(self).job_script,
            panel_fetch_for(*final(self), r),
            final(self).user == old(self).user,
            final(self).time_period == old(self).time_period,
            final(self).running == old(self).running,
            final(self).focus == old(self).focus,
            final(self).right_panel_focus == old(self).right_panel_focus,
            final(self).running_only == old(self).running_only,
            final(self).modal == old(self).modal,
    {
        broadcast use vstd::seq_lib::group_filter_ensures;

        let kept = if self.running_only {
            filter_active(fetched)
        } else {
            fetched
        };
        self.store_jobs(kept)
    }

    /// Replaces the buffer the right panel shows with freshly fetched
    /// lines, its selection reset to the first line.
    pub fn panel_fetched(&mut self, lines: Vec<String>)
        requires
            old(self).wf(),
            old(self).slurm_jobs.selected is Some,
        ensures
            final(self).wf(),
            old(self).right_panel_focus is Output ==> final(self).job_output.items@ == lines@
                && final(self).job_output.selected == (if lines@.len() == 0 {
                Option::<usize>::None
            } else {
                Option::Some(0usize)
            }) && final(self).job_script == old(self).job_script,
            old(self).right_panel_focus is JobScript ==> final(self).job_script.items@ == lines@
                && final(self).job_script.selected == (if lines@.len() == 0 {
                Option::<usize>::None
            } else {
                Option::Some(0usize)
            }) && final(self).job_output == old(self).job_output,
            final(self).user == old(self).user,
            final(self).time_period == old(self).time_period,
            final(self).running == old(self).running,
            final(self).slurm_jobs == old(self).slurm_jobs,
            final(self).focus == old(self).focus,
            final(self).right_panel_focus == old(self).right_panel_focus,
            final(self).running_only == old(self).running_only,
            final(self).modal == old(self).modal,
    {
        let sel = if lines.len() > 0 {
            Some(0)
        } else {
            None
        };
        let buf = StatefulList { items: lines, selected: sel };
        match self.right_panel_focus {
            RightPanelFocus::Output => {
                self.job_output = buf;
            },
            RightPanelFocus::JobScript => {
                self.job_script = buf;
            },
        }
    }

    /// Moves the focused list's selection one step towards the start,
    /// wrapping to the end; ignored while a modal is open.
    pub fn on_up(&mut self) -> (r: AdapterRequest)
        requires
            old(self).wf(),
        ensures
            final(self).wf(),
            nav_post(*old(self), *final(self), r, NavStep::StepUp),
    {
        if self.modal.is_some() {
            return AdapterRequest::Idle;
        }
        match self.focus {
            Focus::JobList => {
                self.slurm_jobs.previous();
                self.selected_fetch()
            },
            Focus::OutputPanel => {
                match self.right_panel_focus {
                    RightPanelFocus::Output => self.job_output.previous(),
                    RightPanelFocus::JobScript => self.job_script.previous(),
                }
                AdapterRequest::Idle
            },
        }
    }

    /// Moves the focused list's selection one step towards the end,
    /// wrapping to the start; ignored while a modal is open.
    pub fn on_down(&mut self) -> (r: AdapterRequest)
        requires
            old(self).wf(),
        ensures
            final(self).wf(),
            nav_post(*old(self), *final(self), r, NavStep::StepDown),
    {
        if self.modal.is_some() {
            return AdapterRequest::Idle;
        }
        match self.focus {
            Focus::JobList => {
                self.slurm_jobs.next();
                self.selected_fetch()
            },
            Focus::OutputPanel => {
                match self.right_panel_focus {
                    RightPanelFocus::Output => self.job_output.next(),
                    RightPanelFocus::JobScript => self.job_script.next(),
                }
                AdapterRequest::Idle
            },
        }
    }
}

/// The panel not currently shown.
pub open spec fn other_panel(p: RightPanelFocus) -> RightPanelFocus {
    match p {
        RightPanelFocus::Output => RightPanelFocus::JobScript,
        RightPanelFocus::JobScript => RightPanelFocus::Output,
    }
}

/// The panel not currently focused.
pub open spec fn other_focus(f: Focus) -> Focus {
    match f {
        Focus::JobList => Focus::OutputPanel,
        Focus::OutputPanel => Focus::JobList,
    }
}

/// One filter toggle: with no modal open it flips `running_only` and keeps
/// the modal closed; with a modal open it changes nothing.
pub open spec fn toggle_filter_flips(pre: App, post: App) -> bool {
    &&& post.modal == pre.modal
    &&& (pre.modal is None ==> post.running_only == !pre.running_only)
    &&& (pre.modal is Some ==> post.running_only == pre.running_only)
}

/// One right-panel toggle: with no modal open it swaps the shown buffer and
/// keeps the modal closed; with a modal open it changes nothing.
pub open spec fn toggle_panel_swaps(pre: App, post: App) -> bool {
    &&& post.modal == pre.modal
    &&& (pre.modal is None ==> post.right_panel_focus == other_panel(pre.right_panel_focus))
    &&& (pre.modal is Some ==> post.right_panel_focus == pre.right_panel_focus)
}

/// One right-panel toggle, in full: a no-op while a modal is open; else
/// the shown buffer swaps, nothing else changes, and the buffer now shown
/// is asked for afresh.
pub open spec fn panel_toggled(pre: App, post: App, r: AdapterRequest) -> bool {
    &&& toggle_panel_swaps(pre, post)
    &&& (pre.modal is Some ==> post == pre && r is Idle)
    &&& (pre.modal is None ==> post == (App {
        right_panel_focus: other_panel(pre.right_panel_focus),
        ..pre
    }) && panel_fetch_for(post, r))
}

/// One focus toggle: a no-op while a modal is open; else the focused panel
/// swaps and nothing else changes.
pub open spec fn focus_toggled(pre: App, post: App) -> bool {
    &&& (pre.modal is Some ==> post == pre)
    &&& (pre.modal is None ==> post == (App { focus: other_focus(pre.focus), ..pre }))
}

/// One filter toggle, in full: a no-op while a modal is open; else
/// `running_only` flips and a refresh is asked for. Switching the filter
/// off changes nothing else; switching it on discards the listed jobs that
/// are neither running nor pending at once, clamping the selection as on a
/// reload and clearing the buffers if the selection goes away.
pub open spec fn filter_toggled(pre: App, post: App, r: AdapterRequest) -> bool {
    &&& toggle_filter_flips(pre, post)
    &&& (pre.modal is Some ==> post == pre && r is Idle)
    &&& (pre.modal is None ==> r is FetchJobs)
    &&& ((pre.modal is None && pre.running_only) ==> post == (App {
        running_only: false,
        ..pre
    }))
    &&& ((pre.modal is None && !pre.running_only) ==> {
        &&& post.running_only
        &&& post.slurm_jobs.items@ == active_jobs(pre.slurm_jobs.items@)
        &&& post.slurm_jobs.selected == clamp_index(
            pre.slurm_jobs.selected,
            active_jobs(pre.slurm_jobs.items@).len(),
        )
        &&& (post.slurm_jobs.selected is None ==> post.job_output.items@.len() == 0
            && post.job_script.items@.len() == 0)
        &&& (post.slurm_jobs.selected is Some ==> post.job_output == pre.job_output
            && post.job_script == pre.job_script)
        &&& post.user == pre.user
        &&& post.time_period == pre.time_period
        &&& post.running == pre.running
        &&& post.focus == pre.focus
        &&& post.right_panel_focus == pre.right_panel_focus
        &&& post.modal == pre.modal
    })
}

/// One confirmation: a no-op with no dialog open; else the dialog closes
/// and the caller is asked to cancel or requeue the selected job and then
/// refresh; with the selection gone, only to refresh.
pub open spec fn modal_confirmed(pre: App, post: App, r: AdapterRequest) -> bool {
    match pre.modal {
        Option::None => post == pre && r is Idle,
        Option::Some(m) => {
            &&& post == (App { modal: Option::<Modal>::None, ..pre })
            &&& match pre.spec_selected_job_id() {
                Option::None => r is FetchJobs,
                Option::Some(id) => match m {
                    Modal::ConfirmCancel => r matches AdapterRequest::CancelThenRefresh(s)
                        && s@ == id,
                    Modal::ConfirmRequeue => r matches AdapterRequest::RequeueThenRefresh(s)
                        && s@ == id,
                },
            }
        },
    }
}

/// Asking for a confirmation dialog: opens it only when no modal is open
/// and a job is selected, and changes nothing else; otherwise a no-op.
pub open spec fn modal_requested(pre: App, post: App, m: Modal) -> bool {
    if pre.modal is None && pre.slurm_jobs.selected is Some {
        post == (App { modal: Option::Some(m), ..pre })
    } else {
        post == pre
    }
}

/// Dismissing the dialog: closes any modal and changes nothing else.
pub open spec fn modal_dismissed(pre: App, post: App) -> bool {
    post == (App { modal: Option::<Modal>::None, ..pre })
}

impl App {
    /// Moves the focused list's selection `n` steps towards the start with
    /// wrap-around; ignored while a modal is open.
    pub fn on_up_by(&mut self, n: usize) -> (r: AdapterRequest)
        requires
            old(self).wf(),
        ensures
            final(self).wf(),
            nav_post(*old(self), *final(self), r, NavStep::StepUpBy(n as nat)),
    {
        if self.modal.is_some() {
            return AdapterRequest::Idle;
        }
        match self.focus {
            Focus::JobList => {
                self.slurm_jobs.previous_by(n);
                self.selected_fetch()
            },
            Focus::OutputPanel => {
                match self.right_panel_focus {
                    RightPanelFocus::Output => self.job_output.previous_by(n),
                    RightPanelFocus::JobScript => self.job_script.previous_by(n),
                }
                AdapterRequest::Idle
            },
        }
    }

    /// Moves the focused list's selection `n` steps towards the end with
    /// wrap-around; ignored while a modal is open.
    pub fn on_down_by(&mut self, n: usize) -> (r: AdapterRequest)
        requires
            old(self).wf(),
        ensures
            final(self).wf(),
            nav_post(*old(self), *final(self), r, NavStep::StepDownBy(n as nat)),
    {
        if self.modal.is_some() {
            return AdapterRequest::Idle;
        }
        match self.focus {
            Focus::JobList => {
                self.slurm_jobs.next_by(n);
                self.selected_fetch()
            },
            Focus::OutputPanel => {
                match self.right_panel_focus {
                    RightPanelFocus::Output => self.job_output.next_by(n),
                    RightPanelFocus::JobScript => self.job_script.next_by(n),
                }
                AdapterRequest::Idle
            },
        }
    }

    /// Selects the first item of the focused list; ignored while a modal is
    /// open.
    pub fn jump_top(&mut self) -> (r: AdapterRequest)
        requires
            old(self).wf(),
        ensures
            final(self).wf(),
            nav_post(*old(self), *final(self), r, NavStep::Top),
    {
        if self.modal.is_some() {
            return AdapterRequest::Idle;
        }
        match self.focus {
            Focus::JobList => {
                self.slurm_jobs.select_first();
                self.selected_fetch()
            },
            Focus::OutputPanel => {
                match self.right_panel_focus {
                    RightPanelFocus::Output => self.job_output.select_first(),
                    RightPanelFocus::JobScript => self.job_script.select_first(),
                }
                AdapterRequest::Idle
            },
        }
    }

    /// Selects the last item of the focused list; ignored while a modal is
    /// open.
    pub fn jump_bottom(&mut self) -> (r: AdapterRequest)
        requires
            old(self).wf(),
        ensures
            final(self).wf(),
            nav_post(*old(self), *final(self), r, NavStep::Bottom),
    {
        if self.modal.is_some() {
            return AdapterRequest::Idle;
        }
        match self.focus {
            Focus::JobList => {
                self.slurm_jobs.select_last();
                self.selected_fetch()
            },
            Focus::OutputPanel => {
                match self.right_panel_focus {
                    RightPanelFocus::Output => self.job_output.select_last(),
                    RightPanelFocus::JobScript => self.job_script.select_last(),
                }
                AdapterRequest::Idle
            },
        }
    }

    /// Swaps the buffer the right panel shows and asks for a fresh fetch of
    /// the one now shown; ignored while a modal is open.
    pub fn toggle_right_panel(&mut self) -> (r: AdapterRequest)
        requires
            old(self).wf(),
        ensures
            final(self).wf(),
            panel_toggled(*old(self), *final(self), r),
    {
        if self.modal.is_some() {
            return AdapterRequest::Idle;
        }
        self.right_panel_focus = match self.right_panel_focus {
            RightPanelFocus::Output => RightPanelFocus::JobScript,
            RightPanelFocus::JobScript => RightPanelFocus::Output,
        };
        self.selected_fetch()
    }

    /// Swaps which panel receives navigation keys; ignored while a modal is
    /// open.
    pub fn toggle_focus(&mut self)
        requires
            old(self).wf(),
        ensures
            final(self).wf(),
            focus_toggled(*old(self), *final(self)),
    {
        if self.modal.is_some() {
            return;
        }
        self.focus = match self.focus {
            Focus::JobList => Focus::OutputPanel,
            Focus::OutputPanel => Focus::JobList,
        };
    }

    /// Flips `running_only` and asks for an immediate refresh. While the
    /// filter is being switched on, jobs already listed that are neither
    /// running nor pending are discarded at once, the selection clamped as
    /// on a reload. Ignored while a modal is open.
    pub fn toggle_filter(&mut self) -> (r: AdapterRequest)
        requires
            old(self).wf(),
        ensures
            final(self).wf(),
            filter_toggled(*old(self), *final(self), r),
    {
        broadcast use vstd::seq_lib::group_filter_ensures;

        if self.modal.is_some() {
            return AdapterRequest::Idle;
        }
        if self.running_only {
            self.running_only = false;
        } else {
            self.running_only = true;
            let mut taken: Vec<SlurmJob> = Vec::new();
            core::mem::swap(&mut taken, &mut self.slurm_jobs.items);
            let kept = filter_active(taken);
            let _ = self.store_jobs(kept);
        }
        AdapterRequest::FetchJobs
    }

    /// Opens the cancel confirmation when no modal is open and a job is
    /// selected; otherwise a no-op. Asks nothing of the scheduler.
    pub fn request_cancel(&mut self)
        requires
            old(self).wf(),
        ensures
            final(self).wf(),
            modal_requested(*old(self), *final(self), Modal::ConfirmCancel),
    {
        if self.modal.is_none() && self.slurm_jobs.selected.is_some() {
            self.modal = Some(Modal::ConfirmCancel);
        }
    }

    /// Opens the requeue confirmation when no modal is open and a job is
    /// selected; otherwise a no-op. Asks nothing of the scheduler.
    pub fn request_requeue(&mut self)
        requires
            old(self).wf(),
        ensures
            final(self).wf(),
            modal_requested(*old(self), *final(self), Modal::ConfirmRequeue),
    {
        if self.modal.is_none() && self.slurm_jobs.selected.is_some() {
            self.modal = Some(Modal::ConfirmRequeue);
        }
    }

    /// Closes any open dialog without acting on it. Asks nothing of the
    /// scheduler.
    pub fn cancel_modal(&mut self)
        requires
            old(self).wf(),
        ensures
            final(self).wf(),
            modal_dismissed(*old(self), *final(self)),
    {
        self.modal = None;
    }

    /// Confirms the open dialog: closes it and asks the caller to cancel or
    /// requeue the selected job and then refresh. With no dialog open,
    /// nothing happens; with the selection gone, only the refresh is asked
    /// for.
    pub fn confirm_modal(&mut self) -> (r: AdapterRequest)
        requires
            old(self).wf(),
        ensures
            final(self).wf(),
            modal_confirmed(*old(self), *final(self), r),
    {
        match self.modal {
            None => AdapterRequest::Idle,
            Some(m) => {
                self.modal = None;
                match self.slurm_jobs.selected {
                    None => AdapterRequest::FetchJobs,
                    Some(i) => {
                        let id = self.slurm_jobs.items[i].job_id.clone();
                        match m {
                            Modal::ConfirmCancel => AdapterRequest::CancelThenRefresh(id),
                            Modal::ConfirmRequeue => AdapterRequest::RequeueThenRefresh(id),
                        }
                    },
                }
            },
        }
    }
}

/// A keyboard event, as the event loop sees it.
#[derive(Clone, Copy, Debug, PartialEq, Eq, Structural)]
pub enum KeyInput {
    Up,
    Down,
    ShiftUp,
    ShiftDown,
    CharQ,
    CtrlC,
    CharT,
    CharB,
    CharJ,
    CharF,
    Tab,
    CharC,
    CharR,
    Enter,
    Esc,
    Other,
}

impl App {
    /// Maps one keyboard event to its transition: arrows navigate by one,
    /// shifted arrows by ten, `t`/`b` jump to the ends, `j` toggles the
    /// right panel, `f` the filter, Tab the focus, `c`/`r` open the cancel
    /// and requeue dialogs, Enter confirms, Esc dismisses, `q` and Ctrl-C
    /// quit. While a modal is open every binding is suppressed except
    /// Enter, Esc and Ctrl-C.
    pub fn handle_key(&mut self, key: KeyInput) -> (r: AdapterRequest)
        requires
            old(self).wf(),
        ensures
            final(self).wf(),
            match key {
                KeyInput::Up => nav_post(*old(self), *final(self), r, NavStep::StepUp),
                KeyInput::Down => nav_post(*old(self), *final(self), r, NavStep::StepDown),
                KeyInput::ShiftUp => nav_post(*old(self), *final(self), r, NavStep::StepUpBy(10)),
                KeyInput::ShiftDown => nav_post(
                    *old(self),
                    *final(self),
                    r,
                    NavStep::StepDownBy(10),
                ),
                KeyInput::CharT => nav_post(*old(self), *final(self), r, NavStep::Top),
                KeyInput::CharB => nav_post(*old(self), *final(self), r, NavStep::Bottom),
                KeyInput::CharQ => r is Idle && (if old(self).modal is None {
                    *final(self) == (App { running: false, ..*old(self) })
                } else {
                    *final(self) == *old(self)
                }),
                KeyInput::CtrlC => r is Idle && *final(self) == (App {
                    running: false,
                    ..*old(self)
                }),
                KeyInput::CharJ => panel_toggled(*old(self), *final(self), r),
                KeyInput::CharF => filter_toggled(*old(self), *final(self), r),
                KeyInput::Tab => r is Idle && focus_toggled(*old(self), *final(self)),
                KeyInput::CharC => r is Idle && modal_requested(
                    *old(self),
                    *final(self),
                    Modal::ConfirmCancel,
                ),
                KeyInput::CharR => r is Idle && modal_requested(
                    *old(self),
                    *final(self),
                    Modal::ConfirmRequeue,
                ),
                KeyInput::Enter => modal_confirmed(*old(self), *final(self), r),
                KeyInput::Esc => r is Idle && modal_dismissed(*old(self), *final(self)),
                KeyInput::Other => r is Idle && *final(self) == *old(self),
            },
    {
        match key {
            KeyInput::Up => self.on_up(),
            KeyInput::Down => self.on_down(),
            KeyInput::ShiftUp => self.on_up_by(10),
            KeyInput::ShiftDown => self.on_down_by(10),
            KeyInput::CharT => self.jump_top(),
            KeyInput::CharB => self.jump_bottom(),
            KeyInput::CharQ => {
                if self.modal.is_none() {
                    self.quit();
                }
                AdapterRequest::Idle
            },
            KeyInput::CtrlC => {
                self.quit();
                AdapterRequest::Idle
            },
            KeyInput::CharJ => self.toggle_right_panel(),
            KeyInput::CharF => self.toggle_filter(),
            KeyInput::Tab => {
                self.toggle_focus();
                AdapterRequest::Idle
            },
            KeyInput::CharC => {
                self.request_cancel();
                AdapterRequest::Idle
            },
            KeyInput::CharR => {
                self.request_requeue();
                AdapterRequest::Idle
            },
            KeyInput::Enter => self.confirm_modal(),
            KeyInput::Esc => {
                self.cancel_modal();
                AdapterRequest::Idle
            },
            KeyInput::Other => AdapterRequest::Idle,
        }
    }
}

/// The standing invariants of a well-formed state, spelled out: an empty
/// job list leaves both buffers empty and nothing selected; a selection is
/// always in range; under the filter every listed job is running or
/// pending.
pub proof fn lemma_invariants(a: App)
    requires
        a.wf(),
    ensures
        a.slurm_jobs.items@.len() == 0 ==> a.job_output.items@.len() == 0
            && a.job_script.items@.len() == 0 && a.slurm_jobs.selected is None,
        a.slurm_jobs.selected matches Some(i) ==> 0 <= i < a.slurm_jobs.items@.len(),
        a.running_only ==> forall|i: int|
            0 <= i < a.slurm_jobs.items@.len() ==> is_active_state(
                #[trigger] a.slurm_jobs.items@[i]@.state,
            ),
{
}

/// Wrap-around of the selection: from the last index one step towards the
/// end reaches the first; from the first index one step towards the start
/// reaches the last.
pub proof fn lemma_wrap_around(n: nat)
    requires
        n > 0,
        n <= usize::MAX,
    ensures
        next_index(Option::Some((n - 1) as usize), n) == Option::Some(0usize),
        prev_index(Option::Some(0usize), n) == Option::Some((n - 1) as usize),
{
}

/// While a modal is open, every navigation transition is a no-op and asks
/// nothing of the scheduler.
pub proof fn lemma_modal_blocks_navigation(pre: App, post: App, r: AdapterRequest, step: NavStep)
    requires
        pre.modal is Some,
        nav_post(pre, post, r, step),
    ensures
        post == pre,
        r is Idle,
{
}

/// While a modal is open, toggling the focus is a no-op.
pub proof fn lemma_modal_blocks_focus_toggle(pre: App, post: App)
    requires
        pre.modal is Some,
        focus_toggled(pre, post),
    ensures
        post == pre,
{
}

/// Toggling the filter twice restores `running_only`, whatever else the
/// refreshes in between may have changed.
pub proof fn lemma_toggle_filter_twice(a: App, b: App, c: App)
    requires
        toggle_filter_flips(a, b),
        toggle_filter_flips(b, c),
    ensures
        c.running_only == a.running_only,
{
}

/// Toggling the right panel twice restores the shown buffer, whatever else
/// the fetches in between may have changed.
pub proof fn lemma_toggle_panel_twice(a: App, b: App, c: App)
    requires
        toggle_panel_swaps(a, b),
        toggle_panel_swaps(b, c),
    ensures
        c.right_panel_focus == a.right_panel_focus,
{
}

/// Requesting a confirmation and dismissing it leaves no modal open and the
/// rest of the state exactly as it was; neither transition asks anything of
/// the scheduler.
pub proof fn lemma_request_then_dismiss(a: App, b: App, c: App, m: Modal)
    requires
        modal_requested(a, b, m),
        modal_dismissed(b, c),
    ensures
        c.modal is None,
        c == (App { modal: Option::<Modal>::None, ..a }),
{
}

} // verus!
