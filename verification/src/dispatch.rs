//! Deciding what the boot loop does next.
//!
//! Applications run one after the other, each from the same run-time window
//! and each entered by a call. When the running application returns, the
//! next one is launched. When an application calls the termination entry the
//! boot session is over for good, whatever is still waiting in flash.
//!
//! The dispatcher only decides. Its caller carries a launch out: it
//! activates the address space, places the image with `load_image`, and
//! calls the entry address with the address of the entry-point table in the
//! agreed register.

use vstd::prelude::*;
use crate::abi::seal_spec;
use crate::abi::AbiTable;
use crate::abi::AbiTableView;
use crate::apps::image_of;
use crate::apps::table_wf;
use crate::apps::AppManager;
use crate::apps::AppManagerView;
use crate::apps::AppRecord;
use crate::config::RUN_START;

verus! {

/// What the caller reports to the dispatcher.
#[derive(Clone, Copy, Debug, PartialEq, Eq, Structural)]
pub enum DispatchEvent {
    /// Control is with the boot loop: at its start, or because the running
    /// application returned.
    Ready,
    /// The termination entry was called.
    Shutdown,
}

/// Where the boot loop stands.
#[derive(Clone, Copy, Debug, PartialEq, Eq, Structural)]
pub enum Phase {
    /// Applications may still be launched.
    Active,
    /// No application is left to run.
    Finished,
    /// The boot session was ended through the termination entry.
    Halted,
}

/// One launch, as the caller has to carry it out.
pub struct LaunchPlan<'a> {
    /// Index of the application in the table.
    pub index: usize,
    /// The record of the application.
    pub record: AppRecord,
    /// The bytes to place at the start of the run-time window.
    pub image: &'a [u8],
    /// Virtual address at which the application is entered.
    pub entry: usize,
}

/// What the caller has to do next.
pub enum DispatchAction<'a> {
    /// Launch an application.
    Launch(LaunchPlan<'a>),
    /// Leave the boot loop: no application is left to run. `apps_num` is the
    /// number of applications in the table, and zero means that flash held
    /// none.
    Finish { apps_num: usize },
    /// Stop for good: the boot session was ended.
    Halt,
}

/// What a `Dispatcher` holds.
pub struct DispatcherView {
    /// The application table and its cursor.
    pub apps: AppManagerView,
    /// The table of kernel entry points.
    pub abi: AbiTableView,
    /// Where the boot loop stands.
    pub phase: Phase,
}

/// A launch is due: the loop is active, control is with it, and the cursor
/// stands on a record.
pub open spec fn launch_due(v: DispatcherView, event: DispatchEvent) -> bool {
    &&& v.phase == Phase::Active
    &&& event == DispatchEvent::Ready
    &&& v.apps.current_num < v.apps.records.len()
}

/// The phase after `event`.
pub open spec fn next_phase(v: DispatcherView, event: DispatchEvent) -> Phase {
    if v.phase == Phase::Halted || event == DispatchEvent::Shutdown {
        Phase::Halted
    } else if launch_due(v, event) {
        Phase::Active
    } else {
        Phase::Finished
    }
}

/// The dispatcher after `event`: the cursor moves on exactly when a launch
/// is due, and the tables stay as they are.
pub open spec fn step_spec(v: DispatcherView, event: DispatchEvent) -> DispatcherView {
    DispatcherView {
        apps: if launch_due(v, event) {
            AppManagerView { current_num: (v.apps.current_num + 1) as usize, ..v.apps }
        } else {
            v.apps
        },
        abi: v.abi,
        phase: next_phase(v, event),
    }
}

/// `action` is what the dispatcher in state `v` answers to `event`.
pub open spec fn action_matches(
    v: DispatcherView,
    event: DispatchEvent,
    action: DispatchAction<'_>,
) -> bool {
    match action {
        DispatchAction::Launch(plan) => {
            &&& launch_due(v, event)
            &&& plan.index == v.apps.current_num
            &&& plan.record == v.apps.records[plan.index as int]
            &&& plan.image@ == image_of(v.apps.flash, plan.record)
            &&& plan.image@.len() == plan.record.true_length
            &&& plan.entry == RUN_START
        },
        DispatchAction::Finish { apps_num } => {
            &&& next_phase(v, event) == Phase::Finished
            &&& apps_num == v.apps.records.len()
        },
        DispatchAction::Halt => next_phase(v, event) == Phase::Halted,
    }
}

/// Termination is final: once the termination entry was called, no event
/// leads to another launch, and the dispatcher stays as it is.
pub proof fn lemma_shutdown_is_final(v: DispatcherView, event: DispatchEvent)
    ensures
        step_spec(v, DispatchEvent::Shutdown).phase == Phase::Halted,
        step_spec(v, DispatchEvent::Shutdown).apps == v.apps,
        !launch_due(step_spec(v, DispatchEvent::Shutdown), event),
        step_spec(step_spec(v, DispatchEvent::Shutdown), event) == step_spec(
            v,
            DispatchEvent::Shutdown,
        ),
{
}

/// Applications are launched in table order: a launch hands out the record
/// under the cursor and leaves the cursor on the record behind it.
pub proof fn lemma_launch_order(v: DispatcherView)
    requires
        launch_due(v, DispatchEvent::Ready),
        v.apps.current_num < usize::MAX,
    ensures
        step_spec(v, DispatchEvent::Ready).apps.current_num == v.apps.current_num + 1,
        step_spec(v, DispatchEvent::Ready).apps.records == v.apps.records,
        step_spec(v, DispatchEvent::Ready).phase == Phase::Active,
{
}

/// The dispatcher after `n` events `Ready`.
pub open spec fn after_ready(v: DispatcherView, n: nat) -> DispatcherView
    decreases n,
{
    if n == 0 {
        v
    } else {
        step_spec(after_ready(v, (n - 1) as nat), DispatchEvent::Ready)
    }
}

/// A boot loop that is never shut down runs every application once, in
/// table order: starting from the first record, the loop is still active
/// after `k` launches, its cursor stands on record `k`, and the next event
/// `Ready` launches that record or, behind the last record, ends the loop.
pub proof fn lemma_runs_all_in_order(v: DispatcherView, k: nat)
    requires
        v.phase == Phase::Active,
        v.apps.current_num == 0,
        v.apps.records.len() <= usize::MAX,
        k <= v.apps.records.len(),
    ensures
        after_ready(v, k).phase == Phase::Active,
        after_ready(v, k).apps.current_num == k,
        after_ready(v, k).apps.records == v.apps.records,
        after_ready(v, k).apps.flash == v.apps.flash,
        after_ready(v, k).abi == v.abi,
        k < v.apps.records.len() ==> launch_due(after_ready(v, k), DispatchEvent::Ready),
        k == v.apps.records.len() ==> after_ready(v, k + 1).phase == Phase::Finished,
    decreases k,
{
    if k > 0 {
        lemma_runs_all_in_order(v, (k - 1) as nat);
    }
    if k == v.apps.records.len() {
        assert(after_ready(v, k + 1) == step_spec(after_ready(v, k), DispatchEvent::Ready));
    }
}

/// The boot loop's decisions.
pub struct Dispatcher<'a> {
    apps: AppManager<'a>,
    abi: AbiTable,
    phase: Phase,
}

impl<'a> View for Dispatcher<'a> {
    type V = DispatcherView;

    closed spec fn view(&self) -> DispatcherView {
        DispatcherView { apps: self.apps@, abi: self.abi@, phase: self.phase }
    }
}

impl<'a> Dispatcher<'a> {
    /// The application table is well formed and the table of entry points is
    /// sealed.
    pub open spec fn wf(&self) -> bool {
        table_wf(self@.apps) && self@.abi.sealed
    }

    /// Takes over the scanned application table and the filled table of
    /// entry points, and seals the latter: from here on no entry point can
    /// be registered.
    pub fn new(apps: AppManager<'a>, abi: AbiTable) -> (d: Self)
        requires
            apps.wf(),
        ensures
            d.wf(),
            d@ == (DispatcherView { apps: apps@, abi: seal_spec(abi@), phase: Phase::Active }),
    {
        let mut abi = abi;
        abi.seal();
        Dispatcher { apps, abi, phase: Phase::Active }
    }

    /// Answers `event` with what the caller has to do next.
    pub fn step(&mut self, event: DispatchEvent) -> (action: DispatchAction<'a>)
        requires
            old(self).wf(),
        ensures
            final(self).wf(),
            final(self)@ == step_spec(old(self)@, event),
            action_matches(old(self)@, event, action),
    {
        match self.phase {
            Phase::Halted => {
                return DispatchAction::Halt;
            },
            _ => {},
        }
        match event {
            DispatchEvent::Shutdown => {
                self.phase = Phase::Halted;
                return DispatchAction::Halt;
            },
            _ => {},
        }
        let index: usize = self.apps.current_num();
        let count: usize = self.apps.apps_num();
        match (self.phase, self.apps.record(index)) {
            (Phase::Active, Some(record)) => {
                let image = self.apps.get_load_true();
                DispatchAction::Launch(LaunchPlan { index, record, image, entry: RUN_START })
            },
            _ => {
                self.phase = Phase::Finished;
                DispatchAction::Finish { apps_num: count }
            },
        }
    }

    /// Where the boot loop stands.
    pub fn phase(&self) -> (p: Phase)
        ensures
            p == self@.phase,
    {
        self.phase
    }

    /// The sealed table of entry points.
    pub fn abi(&self) -> (t: &AbiTable)
        requires
            self.wf(),
        ensures
            t@ == self@.abi,
            t@.sealed,
    {
        &self.abi
    }

    /// The application table.
    pub fn apps(&self) -> (m: &AppManager<'a>)
        requires
            self.wf(),
        ensures
            m@ == self@.apps,
            m.wf(),
    {
        &self.apps
    }
}

/// Why an image was not placed.
#[derive(Clone, Copy, Debug, PartialEq, Eq, Structural)]
pub enum LoadError {
    /// The image is longer than the run-time window.
    WindowTooSmall,
}

/// The window after an image was placed in it: the image, then zero bytes
/// up to the end of the window.
pub open spec fn loaded_window(len: nat, image: Seq<u8>) -> Seq<u8> {
    Seq::new(
        len,
        |i: int|
            if i < image.len() {
                image[i]
            } else {
                0u8
            },
    )
}

/// Places `image` at the start of the run-time window and clears the rest
/// of the window, so that nothing of the application that ran before is
/// left. An image that does not fit leaves the window as it is.
pub fn load_image(window: &mut [u8], image: &[u8]) -> (r: Result<(), LoadError>)
    ensures
        r is Ok <==> image@.len() <= old(window)@.len(),
        r is Ok ==> final(window)@ == loaded_window(old(window)@.len(), image@),
        r matches Err(e) ==> e == LoadError::WindowTooSmall && final(window)@ == old(window)@,
{
    let n: usize = window.len();
    let m: usize = image.len();
    if m > n {
        return Err(LoadError::WindowTooSmall);
    }
    let mut i: usize = 0;
    while i < n
        invariant
            n == window@.len(),
            m == image@.len(),
            m <= n,
            i <= n,
            forall|j: int| 0 <= j < i ==> window@[j] == 0,
        decreases n - i,
    {
        window[i] = 0;
        i += 1;
    }
    let mut k: usize = 0;
    while k < m
        invariant
            n == window@.len(),
            m == image@.len(),
            m <= n,
            k <= m,
            forall|j: int| 0 <= j < k ==> window@[j] == image@[j],
            forall|j: int| k <= j < n ==> window@[j] == 0,
        decreases m - k,
    {
        window[k] = image[k];
        k += 1;
    }
    assert(window@ =~= loaded_window(n as nat, image@));
    Ok(())
}

} // verus!
