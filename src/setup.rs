use vstd::prelude::*;

use crate::platform::{unsupported_message, unsupported_text, Platform, VisualEffect};

verus! {

/// Where the start-up sequence stands.
#[derive(Clone, Copy, Debug, PartialEq, Eq)]
pub enum SetupStage {
    /// Waiting for the update capability to be registered.
    RegisteringUpdater,
    /// Waiting for the lookup of the main window.
    FindingWindow,
    /// Waiting for the platform to apply the visual effect.
    ApplyingEffect,
    /// Start-up is complete; the run loop may begin.
    Ready,
    /// Start-up was aborted.
    Failed,
}

/// Why start-up was aborted.
#[derive(Clone, Copy, Debug, PartialEq, Eq)]
pub enum SetupFailure {
    /// The update capability could not be registered.
    UpdaterRegistration,
    /// No window carries the main window's label.
    MissingWindow,
    /// The platform refused the visual effect.
    EffectRefused(VisualEffect),
}

/// What the application framework reported.
#[derive(Clone, Copy, Debug, PartialEq, Eq)]
pub enum SetupEvent {
    UpdaterRegistered { ok: bool },
    WindowLookup { found: bool },
    EffectApplied { ok: bool },
}

/// What the application is to do next.
#[derive(Clone, Copy, Debug, PartialEq, Eq)]
pub enum SetupAction {
    /// Nothing: wait for the next event.
    Wait,
    /// Register the self-update capability.
    RegisterUpdater,
    /// Look up the window labelled `main`.
    FindMainWindow,
    /// Apply this effect to the main window.
    ApplyEffect(VisualEffect),
    /// Start-up is done.
    Finish,
    /// Stop the process with the failure's message.
    Abort(SetupFailure),
}

/// The start-up sequence of one application on one platform.
#[derive(Clone, Copy, Debug, PartialEq, Eq)]
pub struct Setup {
    pub platform: Platform,
    pub stage: SetupStage,
}

/// The message with which start-up stops.
pub open spec fn failure_text(f: SetupFailure) -> Seq<char> {
    match f {
        SetupFailure::UpdaterRegistration => "error while running tauri application"@,
        SetupFailure::MissingWindow => "the main window was not created"@,
        SetupFailure::EffectRefused(e) => unsupported_text(e),
    }
}

pub fn failure_message(f: SetupFailure) -> (r: &'static str)
    ensures
        r@ == failure_text(f),
{
    match f {
        SetupFailure::UpdaterRegistration => "error while running tauri application",
        SetupFailure::MissingWindow => "the main window was not created",
        SetupFailure::EffectRefused(e) => unsupported_message(e),
    }
}

impl Setup {
    /// The updater is registered on desktop targets only, and an effect is
    /// applied only where the platform has one.
    pub open spec fn wf(self) -> bool {
        &&& (self.stage is RegisteringUpdater ==> self.platform.is_desktop_spec())
        &&& (self.stage is ApplyingEffect ==> self.platform.effect_spec() !is Plain)
    }

    /// The state and the action once the window is known to exist.
    pub open spec fn after_window(self) -> (Setup, SetupAction) {
        if self.platform.effect_spec() is Plain {
            (Setup { stage: SetupStage::Ready, ..self }, SetupAction::Finish)
        } else {
            (
                Setup { stage: SetupStage::ApplyingEffect, ..self },
                SetupAction::ApplyEffect(self.platform.effect_spec()),
            )
        }
    }

    /// The state and the action that start-up begins with.
    pub open spec fn first(platform: Platform) -> (Setup, SetupAction) {
        if platform.is_desktop_spec() {
            (Setup { platform, stage: SetupStage::RegisteringUpdater }, SetupAction::RegisterUpdater)
        } else {
            (Setup { platform, stage: SetupStage::FindingWindow }, SetupAction::FindMainWindow)
        }
    }

    /// The transition table of start-up. An event that does not belong to
    /// the current stage leaves the state as it is.
    pub open spec fn next(self, ev: SetupEvent) -> (Setup, SetupAction) {
        let failed = Setup { stage: SetupStage::Failed, ..self };
        match (self.stage, ev) {
            (SetupStage::RegisteringUpdater, SetupEvent::UpdaterRegistered { ok }) => if ok {
                (Setup { stage: SetupStage::FindingWindow, ..self }, SetupAction::FindMainWindow)
            } else {
                (failed, SetupAction::Abort(SetupFailure::UpdaterRegistration))
            },
            (SetupStage::FindingWindow, SetupEvent::WindowLookup { found }) => if found {
                self.after_window()
            } else {
                (failed, SetupAction::Abort(SetupFailure::MissingWindow))
            },
            (SetupStage::ApplyingEffect, SetupEvent::EffectApplied { ok }) => if ok {
                (Setup { stage: SetupStage::Ready, ..self }, SetupAction::Finish)
            } else {
                (failed, SetupAction::Abort(SetupFailure::EffectRefused(self.platform.effect_spec())))
            },
            _ => (self, SetupAction::Wait),
        }
    }

    /// The state after each of `evs` in turn, and the actions on the way.
    pub open spec fn run(self, evs: Seq<SetupEvent>) -> (Setup, Seq<SetupAction>)
        decreases evs.len(),
    {
        if evs.len() == 0 {
            (self, Seq::empty())
        } else {
            let (s, a) = self.next(evs[0]);
            let (t, rest) = s.run(evs.drop_first());
            (t, seq![a] + rest)
        }
    }

    /// Starts the sequence for `platform`.
    pub fn begin(platform: Platform) -> (r: (Setup, SetupAction))
        ensures
            r == Setup::first(platform),
            r.0.wf(),
    {
        if platform.is_desktop() {
            (Setup { platform, stage: SetupStage::RegisteringUpdater }, SetupAction::RegisterUpdater)
        } else {
            (Setup { platform, stage: SetupStage::FindingWindow }, SetupAction::FindMainWindow)
        }
    }

    /// Takes one event and says what to do about it.
    pub fn step(self, ev: SetupEvent) -> (r: (Setup, SetupAction))
        requires
            self.wf(),
        ensures
            r == self.next(ev),
            r.0.wf(),
    {
        let failed = Setup { stage: SetupStage::Failed, ..self };
        match (self.stage, ev) {
            (SetupStage::RegisteringUpdater, SetupEvent::UpdaterRegistered { ok }) => if ok {
                (Setup { stage: SetupStage::FindingWindow, ..self }, SetupAction::FindMainWindow)
            } else {
                (failed, SetupAction::Abort(SetupFailure::UpdaterRegistration))
            },
            (SetupStage::FindingWindow, SetupEvent::WindowLookup { found }) => if found {
                let effect = self.platform.effect();
                match effect {
                    VisualEffect::Plain => (Setup { stage: SetupStage::Ready, ..self }, SetupAction::Finish),
                    _ => (Setup { stage: SetupStage::ApplyingEffect, ..self }, SetupAction::ApplyEffect(effect)),
                }
            } else {
                (failed, SetupAction::Abort(SetupFailure::MissingWindow))
            },
            (SetupStage::ApplyingEffect, SetupEvent::EffectApplied { ok }) => if ok {
                (Setup { stage: SetupStage::Ready, ..self }, SetupAction::Finish)
            } else {
                (failed, SetupAction::Abort(SetupFailure::EffectRefused(self.platform.effect())))
            },
            _ => (self, SetupAction::Wait),
        }
    }
}

/// The events of a start-up on `platform` in which registration and the
/// window lookup succeed, and the effect, where there is one, is applied
/// or refused as `effect_ok` says.
pub open spec fn start_events(platform: Platform, effect_ok: bool) -> Seq<SetupEvent> {
    let register = if platform.is_desktop_spec() {
        seq![SetupEvent::UpdaterRegistered { ok: true }]
    } else {
        Seq::empty()
    };
    let effect = if platform.effect_spec() is Plain {
        Seq::empty()
    } else {
        seq![SetupEvent::EffectApplied { ok: effect_ok }]
    };
    register + seq![SetupEvent::WindowLookup { found: true }] + effect
}

/// Start-up as a whole, from its first state through `start_events`.
pub open spec fn start_outcome(platform: Platform, effect_ok: bool) -> (Setup, Seq<SetupAction>) {
    Setup::first(platform).0.run(start_events(platform, effect_ok))
}

proof fn lemma_run_one(s: Setup, evs: Seq<SetupEvent>)
    requires
        evs.len() > 0,
    ensures
        s.run(evs).0 == s.next(evs[0]).0.run(evs.drop_first()).0,
        s.run(evs).1 == seq![s.next(evs[0]).1] + s.next(evs[0]).0.run(evs.drop_first()).1,
{
}

/// When every step succeeds, start-up on any platform ends ready, and its
/// last action is to finish.
pub proof fn lemma_clean_start(platform: Platform)
    ensures
        start_outcome(platform, true).0.stage == SetupStage::Ready,
        start_outcome(platform, true).1.last() == SetupAction::Finish,
{
    lemma_start_sequence(platform, true);
}

/// When the platform refuses the visual effect, start-up ends failed, and
/// its last action stops the process with the unsupported-platform message
/// of that effect.
pub proof fn lemma_refused_effect_aborts(platform: Platform)
    requires
        platform.effect_spec() !is Plain,
    ensures
        start_outcome(platform, false).0.stage == SetupStage::Failed,
        start_outcome(platform, false).1.last() == SetupAction::Abort(
            SetupFailure::EffectRefused(platform.effect_spec()),
        ),
        failure_text(SetupFailure::EffectRefused(platform.effect_spec())) == unsupported_text(
            platform.effect_spec(),
        ),
{
    lemma_start_sequence(platform, false);
}

proof fn lemma_start_sequence(platform: Platform, effect_ok: bool)
    ensures
        start_outcome(platform, effect_ok).0.stage == (if effect_ok || platform.effect_spec() is Plain {
            SetupStage::Ready
        } else {
            SetupStage::Failed
        }),
        start_outcome(platform, effect_ok).1.last() == (if effect_ok || platform.effect_spec() is Plain {
            SetupAction::Finish
        } else {
            SetupAction::Abort(SetupFailure::EffectRefused(platform.effect_spec()))
        }),
{
    let evs = start_events(platform, effect_ok);
    let s0 = Setup::first(platform).0;
    let w = Setup { platform, stage: SetupStage::FindingWindow };
    let tail = if platform.effect_spec() is Plain {
        Seq::<SetupEvent>::empty()
    } else {
        seq![SetupEvent::EffectApplied { ok: effect_ok }]
    };
    let from_window = seq![SetupEvent::WindowLookup { found: true }] + tail;
    if tail.len() > 0 {
        let a = w.after_window().0;
        lemma_run_one(a, tail);
        assert(tail.drop_first() =~= Seq::<SetupEvent>::empty());
    }
    lemma_run_one(w, from_window);
    assert(from_window.drop_first() =~= tail);
    if platform.is_desktop_spec() {
        assert(evs =~= seq![SetupEvent::UpdaterRegistered { ok: true }] + from_window);
        lemma_run_one(s0, evs);
        assert(evs.drop_first() =~= from_window);
    } else {
        assert(evs =~= from_window);
    }
}

/// Once start-up has failed, no later event changes the state, and every
/// action it asks for is to wait: nothing more touches the window.
pub proof fn lemma_failed_setup_stays_failed(s: Setup, evs: Seq<SetupEvent>)
    requires
        s.stage is Failed,
    ensures
        s.run(evs).0 == s,
        s.run(evs).1.len() == evs.len(),
        forall|i: int| 0 <= i < evs.len() ==> s.run(evs).1[i] == SetupAction::Wait,
    decreases evs.len(),
{
    if evs.len() > 0 {
        lemma_failed_setup_stays_failed(s, evs.drop_first());
        let rest = s.run(evs.drop_first()).1;
        assert forall|i: int| 0 <= i < evs.len() implies s.run(evs).1[i] == SetupAction::Wait by {
            if i > 0 {
                assert(s.run(evs).1[i] == rest[i - 1]);
            }
        }
    }
}

} // verus!
