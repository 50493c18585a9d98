//! The installation of all hooks, one after the other.

use crate::hooks;
use crate::hooks::{HookInstallStatus, HookKind, HookState};
use crate::installer;
use crate::installer::{HookInstaller, InstallEvent, InstallRequest};
use vstd::prelude::*;

verus! {

/// The number of hooks.
pub const HOOK_COUNT: usize = 4;

/// The hooks, in the order in which they are installed.
pub open spec fn all_kinds() -> Seq<HookKind> {
    seq![
        HookKind::SongId,
        HookKind::Difficulty,
        HookKind::PlayStateEnter,
        HookKind::PlayStateExit,
    ]
}

/// All hooks and how far their installation has come.
pub struct RuntimeHooks {
    kinds: Vec<HookKind>,
    callbacks: Vec<u32>,
    states: Vec<HookState>,
    at: usize,
    installer: HookInstaller,
}

/// All hooks as mathematical values. The hook at `at` is being installed; behind the last hook none
/// is.
#[verifier::ext_equal]
pub struct HooksView {
    pub callbacks: Seq<u32>,
    pub states: Seq<HookState>,
    pub at: int,
    pub stage: installer::StageView,
}

/// The first hook from `at` on whose installation was never begun, or the number of hooks.
pub open spec fn first_untried(states: Seq<HookState>, at: int) -> int
    decreases states.len() - at,
{
    if at < states.len() && states[at].attempted {
        first_untried(states, at + 1)
    } else {
        at
    }
}

proof fn lemma_first_untried_lies_ahead(states: Seq<HookState>, at: int)
    requires
        0 <= at <= states.len(),
    ensures
        at <= first_untried(states, at) <= states.len(),
    decreases states.len() - at,
{
    if at < states.len() && states[at].attempted {
        lemma_first_untried_lies_ahead(states, at + 1);
    }
}

impl HooksView {
    /// What holds of all hooks between two operations.
    pub open spec fn wf(self) -> bool {
        &&& self.states.len() == HOOK_COUNT
        &&& self.callbacks.len() == HOOK_COUNT
        &&& 0 <= self.at <= HOOK_COUNT
        &&& if self.at < HOOK_COUNT {
            &&& self.states[self.at].attempted
            &&& self.stage.wf(all_kinds()[self.at])
            &&& !(self.stage is Installed)
            &&& !(self.stage is Failed)
        } else {
            self.stage is FindModule
        }
    }

    /// The installation of the first hook from `at` on that was never tried, if there is one.
    pub open spec fn beginning_at(self, at: int) -> HooksView {
        let next = first_untried(self.states, at);
        HooksView {
            states: if next < self.states.len() {
                self.states.update(next, HookState { attempted: true, ..self.states[next] })
            } else {
                self.states
            },
            at: next,
            stage: installer::StageView::FindModule,
            ..self
        }
    }

    /// The installation of the hooks that were never tried. While hooks are being installed, nothing
    /// changes.
    pub open spec fn installing(self) -> HooksView {
        if self.at < HOOK_COUNT {
            self
        } else {
            self.beginning_at(0)
        }
    }

    /// The outcome of a hook kept, and the next one begun.
    pub open spec fn finished(
        self,
        outcome: Result<crate::types::InstalledHook, crate::types::HookInstallError>,
    ) -> HooksView {
        HooksView {
            states: self.states.update(self.at, self.states[self.at].with_outcome(outcome)),
            ..self
        }.beginning_at(self.at + 1)
    }

    /// The hooks after `event`.
    pub open spec fn after(self, event: InstallEvent) -> HooksView {
        if self.at < HOOK_COUNT {
            match self.stage.after(all_kinds()[self.at], event) {
                installer::StageView::Installed { hook } => self.finished(Ok(hook)),
                installer::StageView::Failed { error } => self.finished(Err(error)),
                stage => HooksView { stage, ..self },
            }
        } else {
            self
        }
    }

    /// The outside operation that is wanted next, if any.
    pub open spec fn request(self) -> Option<installer::RequestView> {
        if self.at < HOOK_COUNT {
            Some(self.stage.request(all_kinds()[self.at], self.callbacks[self.at]))
        } else {
            None
        }
    }
}

/// The hooks before any installation.
pub open spec fn untried_hooks(callbacks: Seq<u32>) -> HooksView {
    HooksView {
        callbacks,
        states: Seq::new(HOOK_COUNT as nat, |i: int| HookState::untried()),
        at: HOOK_COUNT as int,
        stage: installer::StageView::FindModule,
    }
}

impl View for RuntimeHooks {
    type V = HooksView;

    closed spec fn view(&self) -> HooksView {
        HooksView {
            callbacks: self.callbacks@,
            states: self.states@,
            at: self.at as int,
            stage: if self.at < HOOK_COUNT {
                self.installer.stage()
            } else {
                installer::StageView::FindModule
            },
        }
    }
}

impl RuntimeHooks {
    /// What holds of all hooks.
    pub closed spec fn wf(&self) -> bool {
        &&& self@.wf()
        &&& self.kinds@ == all_kinds()
        &&& self.installer.wf()
        &&& self.at < HOOK_COUNT ==> {
            &&& self.installer.kind() == all_kinds()[self.at as int]
            &&& self.installer.callback() == self.callbacks@[self.at as int]
        }
    }

    /// The hooks before any installation, with the address of the code that each of them calls.
    pub fn new(callbacks: Vec<u32>) -> (r: Self)
        requires
            callbacks.len() == HOOK_COUNT,
        ensures
            r.wf(),
            r@ == untried_hooks(callbacks@),
    {
        let kinds = hooks::hook_kinds();
        let states: Vec<HookState> = vec![
            HookState::new(),
            HookState::new(),
            HookState::new(),
            HookState::new(),
        ];
        let installer = HookInstaller::new(kinds[0], callbacks[0]);
        let r = RuntimeHooks { kinds, callbacks, states, at: HOOK_COUNT, installer };
        assert(r@ =~= untried_hooks(callbacks@));
        r
    }

    fn begin_at(&mut self, from: usize)
        requires
            from <= HOOK_COUNT,
            old(self).kinds@ == all_kinds(),
            old(self).installer.wf(),
            old(self).states@.len() == HOOK_COUNT,
            old(self).callbacks@.len() == HOOK_COUNT,
        ensures
            final(self).wf(),
            final(self)@ == old(self)@.beginning_at(from as int),
    {
        let mut at: usize = from;
        while at < HOOK_COUNT && self.states[at].attempted
            invariant
                at <= HOOK_COUNT,
                *self == *old(self),
                self.states@.len() == HOOK_COUNT,
                first_untried(self.states@, at as int) == first_untried(
                    self.states@,
                    from as int,
                ),
            decreases HOOK_COUNT - at,
        {
            at += 1;
        }
        if at < HOOK_COUNT {
            let mut state = self.states[at];
            let _ = state.begin_install();
            self.states.set(at, state);
            self.installer = HookInstaller::new(self.kinds[at], self.callbacks[at]);
        }
        self.at = at;
        assert(self@ =~= old(self)@.beginning_at(from as int));
    }

    /// Begins the installation of the hooks that were never tried. While hooks are being installed,
    /// nothing changes.
    pub fn install_runtime_hooks(&mut self)
        requires
            old(self).wf(),
        ensures
            final(self).wf(),
            final(self)@ == old(self)@.installing(),
    {
        if self.at >= HOOK_COUNT {
            self.begin_at(0);
        }
    }

    /// The outside operation that is wanted next, if any.
    pub fn request(&self) -> (r: Option<InstallRequest>)
        requires
            self.wf(),
        ensures
            match r {
                Some(request) => self@.request() == Some(request@),
                None => self@.request() is None,
            },
    {
        if self.at < HOOK_COUNT {
            Some(self.installer.request())
        } else {
            None
        }
    }

    /// Takes in what the outside operation came to.
    pub fn advance(&mut self, event: InstallEvent)
        requires
            old(self).wf(),
        ensures
            final(self).wf(),
            final(self)@ == old(self)@.after(event),
    {
        if self.at >= HOOK_COUNT {
            return;
        }
        self.installer.advance(event);
        if let Some(outcome) = self.installer.outcome() {
            let mut state = self.states[self.at];
            state.store_outcome(outcome);
            self.states.set(self.at, state);
            self.begin_at(self.at + 1);
        }
    }

    /// The outcomes of the installations, for the log.
    pub fn install_results(&self) -> (r: Vec<HookInstallStatus>)
        requires
            self.wf(),
        ensures
            r@.len() == HOOK_COUNT,
            forall|i: int|
                0 <= i < HOOK_COUNT ==> #[trigger] r@[i] == self@.states[i].status(all_kinds()[i]),
    {
        let mut results: Vec<HookInstallStatus> = Vec::new();
        let mut i: usize = 0;
        while i < HOOK_COUNT
            invariant
                i <= HOOK_COUNT,
                self.wf(),
                results@.len() == i,
                forall|j: int|
                    0 <= j < i ==> #[trigger] results@[j] == self@.states[j].status(
                        all_kinds()[j],
                    ),
            decreases HOOK_COUNT - i,
        {
            results.push(self.states[i].install_status(self.kinds[i]));
            i += 1;
        }
        results
    }

    /// What is known of a hook.
    pub fn state(&self, kind: HookKind) -> (r: HookState)
        requires
            self.wf(),
        ensures
            exists|i: int|
                0 <= i < HOOK_COUNT && #[trigger] all_kinds()[i] == kind && r == self@.states[i],
    {
        let i: usize = match kind {
            HookKind::SongId => 0,
            HookKind::Difficulty => 1,
            HookKind::PlayStateEnter => 2,
            HookKind::PlayStateExit => 3,
        };
        assert(all_kinds()[i as int] == kind);
        self.states[i]
    }
}

/// The hooks after the start of the installation and all of `events`.
pub open spec fn hooks_run(callbacks: Seq<u32>, events: Seq<InstallEvent>) -> HooksView
    decreases events.len(),
{
    if events.len() == 0 {
        untried_hooks(callbacks).installing()
    } else {
        hooks_run(callbacks, events.drop_last()).after(events.last())
    }
}

/// Whether an installation was begun once and came to one end: a hook in place, or a reason why there
/// is none.
pub open spec fn settled(state: HookState) -> bool {
    state.attempted && (state.installed <==> state.install_error is None)
}

/// The hooks are installed in their order and each is tried once: those before the one under way are
/// settled, and those after it untouched. When none is under way any more, all are settled.
pub proof fn law_every_hook_is_tried_once(callbacks: Seq<u32>, events: Seq<InstallEvent>)
    requires
        callbacks.len() == HOOK_COUNT,
    ensures
        ({
            let hooks = hooks_run(callbacks, events);
            &&& hooks.wf()
            &&& forall|i: int|
                0 <= i < hooks.at && i < HOOK_COUNT ==> settled(#[trigger] hooks.states[i])
            &&& hooks.at < HOOK_COUNT ==> hooks.states[hooks.at] == (HookState {
                attempted: true,
                ..HookState::untried()
            })
            &&& forall|i: int|
                hooks.at < i < HOOK_COUNT ==> #[trigger] hooks.states[i] == HookState::untried()
        }),
    decreases events.len(),
{
    if events.len() == 0 {
        assert(first_untried(untried_hooks(callbacks).states, 0) == 0);
    } else {
        let before = hooks_run(callbacks, events.drop_last());
        law_every_hook_is_tried_once(callbacks, events.drop_last());
        if before.at < HOOK_COUNT {
            let kind = all_kinds()[before.at];
            installer::law_every_answer_brings_the_installation_forward(
                kind,
                before.callbacks[before.at],
                before.stage,
                events.last(),
            );
        }
    }
}

/// How many outside operations lie behind at most.
pub open spec fn hooks_progress(hooks: HooksView) -> int {
    13 * hooks.at + installer::progress(hooks.stage)
}

/// Every outcome of the operation that was asked for brings the installation of the hooks forward, so
/// that it ends.
pub proof fn law_the_installation_of_the_hooks_ends(hooks: HooksView, event: InstallEvent)
    requires
        hooks.wf(),
        hooks.request() matches Some(request) && installer::answers(event, request),
    ensures
        hooks_progress(hooks) < hooks_progress(hooks.after(event)) <= 13 * HOOK_COUNT,
{
    let kind = all_kinds()[hooks.at];
    installer::law_every_answer_brings_the_installation_forward(
        kind,
        hooks.callbacks[hooks.at],
        hooks.stage,
        event,
    );
    assert forall|states: Seq<HookState>| states.len() == HOOK_COUNT implies hooks.at + 1
        <= #[trigger] first_untried(states, hooks.at + 1) <= HOOK_COUNT by {
        lemma_first_untried_lies_ahead(states, hooks.at + 1);
    }
}

/// Once every hook was tried, another installation changes nothing.
pub proof fn law_hooks_are_not_installed_again(hooks: HooksView)
    requires
        hooks.wf(),
        hooks.at == HOOK_COUNT,
        forall|i: int| 0 <= i < HOOK_COUNT ==> (#[trigger] hooks.states[i]).attempted,
    ensures
        hooks.installing() == hooks,
{
    reveal_with_fuel(first_untried, 5);
}

/// The hooks are those of the song, of the difficulty, and of the start and the end of play.
pub proof fn law_there_are_four_hooks()
    ensures
        all_kinds().len() == 4,
        HOOK_COUNT == 4,
        all_kinds()[0] == HookKind::SongId,
        all_kinds()[1] == HookKind::Difficulty,
        all_kinds()[2] == HookKind::PlayStateEnter,
        all_kinds()[3] == HookKind::PlayStateExit,
{
}

/// What the installation of a hook came to is kept for that hook and for no other, and the next hook
/// that was never tried is begun.
pub proof fn law_each_outcome_goes_to_its_own_hook(hooks: HooksView, event: InstallEvent, i: int)
    requires
        hooks.wf(),
        hooks.at < HOOK_COUNT,
        0 <= i < HOOK_COUNT,
    ensures
        ({
            let stage = hooks.stage.after(all_kinds()[hooks.at], event);
            let after = hooks.after(event);
            let this = hooks.states[hooks.at];
            &&& stage matches installer::StageView::Installed { hook } ==> after.states[hooks.at]
                == this.with_outcome(Ok(hook)) && after.at > hooks.at
            &&& stage matches installer::StageView::Failed { error } ==> after.states[hooks.at]
                == this.with_outcome(Err(error)) && after.at > hooks.at
            &&& !(stage is Installed) && !(stage is Failed) ==> {
                &&& after.states == hooks.states
                &&& after.at == hooks.at
                &&& after.stage == stage
            }
            &&& i != hooks.at && i != after.at ==> after.states[i] == hooks.states[i]
            &&& i == after.at && after.at != hooks.at ==> after.states[i] == (HookState {
                attempted: true,
                ..hooks.states[i]
            }) && !hooks.states[i].attempted
            &&& after.callbacks == hooks.callbacks
        }),
{
    assert forall|states: Seq<HookState>| states.len() == HOOK_COUNT implies {
        let next = #[trigger] first_untried(states, hooks.at + 1);
        hooks.at + 1 <= next <= HOOK_COUNT && (next < HOOK_COUNT ==> !states[next].attempted)
    } by {
        lemma_first_untried_lies_ahead(states, hooks.at + 1);
        lemma_first_untried_is_untried(states, hooks.at + 1);
    }
}

proof fn lemma_first_untried_is_untried(states: Seq<HookState>, at: int)
    requires
        0 <= at <= states.len(),
    ensures
        first_untried(states, at) < states.len() ==> !states[first_untried(states, at)].attempted,
    decreases states.len() - at,
{
    if at < states.len() && states[at].attempted {
        lemma_first_untried_is_untried(states, at + 1);
    }
}

/// An installation begins with the first hook that was never tried.
pub proof fn law_the_installation_begins_with_the_first_untried_hook(hooks: HooksView, i: int)
    requires
        hooks.wf(),
        hooks.at == HOOK_COUNT,
        0 <= i < HOOK_COUNT,
        !hooks.states[i].attempted,
        forall|j: int| 0 <= j < i ==> (#[trigger] hooks.states[j]).attempted,
    ensures
        hooks.installing().at == i,
        hooks.installing().stage is FindModule,
        hooks.installing().states[i].attempted,
        hooks.installing().request() is Some,
        hooks.installing().callbacks == hooks.callbacks,
{
    reveal_with_fuel(first_untried, 5);
}

/// What is asked for is what the hook under way waits for, with the callback of that hook; with none
/// under way nothing is.
pub proof fn law_the_hook_under_way_is_served(hooks: HooksView)
    ensures
        0 <= hooks.at < 4 ==> hooks.request() == Some(
            hooks.stage.request(all_kinds()[hooks.at], hooks.callbacks[hooks.at]),
        ),
        hooks.at >= 4 ==> hooks.request() is None,
{
}

/// Before any installation no hook was tried and none is under way; while hooks are being installed,
/// another installation changes nothing.
pub proof fn law_hooks_start_untried(callbacks: Seq<u32>, hooks: HooksView, i: int)
    requires
        0 <= i < 4,
    ensures
        untried_hooks(callbacks).at == 4,
        untried_hooks(callbacks).callbacks == callbacks,
        untried_hooks(callbacks).states.len() == 4,
        untried_hooks(callbacks).states[i] == HookState::untried(),
        hooks.at < 4 ==> hooks.installing() == hooks,
{
}

} // verus!
