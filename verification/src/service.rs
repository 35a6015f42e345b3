//! Activation and deactivation of the text service.
//!
//! On activation the service advises the keystroke sink, registers the translate shortcut,
//! connects to the server, starts the poll timer, advises the profile sink, applies the mode
//! settings and, where the built-in English mode is on, adds the language-bar button and the
//! conversion-mode sink. Deactivation first commits a half-typed syllable as it stands, then
//! takes these down again in the reverse order.
//!
//! The outside work (COM calls, the server connection) is done by the caller. Each step here
//! takes the outcome of the work just done and says what to do next.
use vstd::prelude::*;

verus! {

/// What the service holds at a moment.
#[derive(Clone, Copy, PartialEq, Eq, Debug, Structural)]
pub struct Held {
    /// The thread manager is kept.
    pub thread_mgr: bool,
    /// The keystroke sink is advised.
    pub key_sink: bool,
    /// The translate-selection shortcut is registered as a preserved key.
    pub translate_key: bool,
    /// A server connection is open.
    pub engine: bool,
    /// The poll timer runs.
    pub poll_timer: bool,
    /// The input-profile sink is advised.
    pub profile_sink: bool,
    /// The service is the active one on this thread.
    pub active: bool,
}

impl Held {
    /// Nothing held.
    pub fn nothing() -> (h: Held)
        ensures
            h == nothing_held(),
    {
        Held {
            thread_mgr: false,
            key_sink: false,
            translate_key: false,
            engine: false,
            poll_timer: false,
            profile_sink: false,
            active: false,
        }
    }
}

/// Nothing held.
pub open spec fn nothing_held() -> Held {
    Held {
        thread_mgr: false,
        key_sink: false,
        translate_key: false,
        engine: false,
        poll_timer: false,
        profile_sink: false,
        active: false,
    }
}

/// Every thing held in `a` is held in `b`.
pub open spec fn holds_at_least(a: Held, b: Held) -> bool {
    &&& a.thread_mgr ==> b.thread_mgr
    &&& a.key_sink ==> b.key_sink
    &&& a.translate_key ==> b.translate_key
    &&& a.engine ==> b.engine
    &&& a.poll_timer ==> b.poll_timer
    &&& a.profile_sink ==> b.profile_sink
    &&& a.active ==> b.active
}

/// How the work just done came out. Applying the settings reports `ModeOn` or `ModeOff`;
/// every other step reports `Succeeded` or `Failed`. A step that expects `Succeeded` takes
/// any other outcome as a failure, and applying the settings takes anything but `ModeOn` as
/// the mode being off.
#[derive(Clone, Copy, PartialEq, Eq, Debug, Structural)]
pub enum Outcome {
    /// The work succeeded.
    Succeeded,
    /// The work failed.
    Failed,
    /// The settings were applied and the built-in English mode is on.
    ModeOn,
    /// The settings were applied and the built-in English mode is off.
    ModeOff,
}

/// A step of activation: the work the caller is to do next.
#[derive(Clone, Copy, PartialEq, Eq, Debug, Structural)]
pub enum ActivationStep {
    /// Take the thread manager and query its keystroke manager; fails when either is missing.
    AcquireKeystrokeMgr,
    /// Advise the keystroke sink; fails when the keystroke manager refuses.
    AdviseKeySink,
    /// Load the translate shortcut and register it as a preserved key.
    RegisterTranslateKey,
    /// Record the client id and connect to the server.
    Connect,
    /// Start the poll timer.
    StartPollTimer,
    /// Advise the input-profile sink.
    AdviseProfile,
    /// Keep the thread manager.
    KeepThreadMgr,
    /// Load the settings, record their stamp, apply the mode settings, guard against the
    /// conversion mode written back by the system, switch to Chinese and refresh the
    /// indicator; the outcome tells whether the built-in English mode is on.
    ApplySettings,
    /// Add the language-bar button.
    AddLangBarItem,
    /// Advise the conversion-mode sink.
    AdviseConversionSink,
    /// Make this service the active one on the thread.
    MarkActive,
    /// Activation is done: report success.
    Succeed,
    /// Activation stopped: report the failure.
    Fail,
}

/// Where an activation stands: the step the caller is to do, and what is held.
#[derive(Clone, Copy, PartialEq, Eq, Debug, Structural)]
pub struct Activation {
    pub step: ActivationStep,
    pub held: Held,
}

/// The order of the activation steps.
pub open spec fn activation_rank(step: ActivationStep) -> nat {
    match step {
        ActivationStep::AcquireKeystrokeMgr => 0,
        ActivationStep::AdviseKeySink => 1,
        ActivationStep::RegisterTranslateKey => 2,
        ActivationStep::Connect => 3,
        ActivationStep::StartPollTimer => 4,
        ActivationStep::AdviseProfile => 5,
        ActivationStep::KeepThreadMgr => 6,
        ActivationStep::ApplySettings => 7,
        ActivationStep::AddLangBarItem => 8,
        ActivationStep::AdviseConversionSink => 9,
        ActivationStep::MarkActive => 10,
        ActivationStep::Succeed => 11,
        ActivationStep::Fail => 12,
    }
}

/// Activation has ended, one way or the other.
pub open spec fn activation_ended(step: ActivationStep) -> bool {
    step == ActivationStep::Succeed || step == ActivationStep::Fail
}

/// The activation after the step `a.step` came out as `outcome`.
pub open spec fn activation_after(a: Activation, outcome: Outcome) -> Activation {
    let h = a.held;
    let ok = outcome == Outcome::Succeeded;
    match a.step {
        ActivationStep::AcquireKeystrokeMgr => Activation {
            step: if ok { ActivationStep::AdviseKeySink } else { ActivationStep::Fail },
            held: h,
        },
        ActivationStep::AdviseKeySink => if ok {
            Activation { step: ActivationStep::RegisterTranslateKey, held: Held { key_sink: true, ..h } }
        } else {
            Activation { step: ActivationStep::Fail, held: h }
        },
        ActivationStep::RegisterTranslateKey => Activation {
            step: ActivationStep::Connect,
            held: Held { translate_key: ok || h.translate_key, ..h },
        },
        ActivationStep::Connect => Activation {
            step: ActivationStep::StartPollTimer,
            held: Held { engine: ok || h.engine, ..h },
        },
        ActivationStep::StartPollTimer => Activation {
            step: if h.profile_sink { ActivationStep::KeepThreadMgr } else { ActivationStep::AdviseProfile },
            held: Held { poll_timer: ok || h.poll_timer, ..h },
        },
        ActivationStep::AdviseProfile => Activation {
            step: ActivationStep::KeepThreadMgr,
            held: Held { profile_sink: ok || h.profile_sink, ..h },
        },
        ActivationStep::KeepThreadMgr => Activation {
            step: ActivationStep::ApplySettings,
            held: Held { thread_mgr: true, ..h },
        },
        ActivationStep::ApplySettings => Activation {
            step: if outcome == Outcome::ModeOn {
                ActivationStep::AddLangBarItem
            } else {
                ActivationStep::MarkActive
            },
            held: h,
        },
        ActivationStep::AddLangBarItem => Activation { step: ActivationStep::AdviseConversionSink, held: h },
        ActivationStep::AdviseConversionSink => Activation { step: ActivationStep::MarkActive, held: h },
        ActivationStep::MarkActive => Activation {
            step: ActivationStep::Succeed,
            held: Held { active: true, ..h },
        },
        ActivationStep::Succeed => a,
        ActivationStep::Fail => a,
    }
}

impl Activation {
    /// Activation of a service that holds `held`: its first step takes the keystroke manager.
    pub fn start(held: Held) -> (a: Activation)
        ensures
            a.step == ActivationStep::AcquireKeystrokeMgr,
            a.held == held,
    {
        Activation { step: ActivationStep::AcquireKeystrokeMgr, held }
    }

    /// The activation after the current step came out as `outcome`.
    pub fn next(&self, outcome: Outcome) -> (after: Activation)
        ensures
            after == activation_after(*self, outcome),
    {
        let h = self.held;
        let ok = outcome == Outcome::Succeeded;
        match self.step {
            ActivationStep::AcquireKeystrokeMgr => Activation {
                step: if ok { ActivationStep::AdviseKeySink } else { ActivationStep::Fail },
                held: h,
            },
            ActivationStep::AdviseKeySink => if ok {
                Activation { step: ActivationStep::RegisterTranslateKey, held: Held { key_sink: true, ..h } }
            } else {
                Activation { step: ActivationStep::Fail, held: h }
            },
            ActivationStep::RegisterTranslateKey => Activation {
                step: ActivationStep::Connect,
                held: Held { translate_key: ok || h.translate_key, ..h },
            },
            ActivationStep::Connect => Activation {
                step: ActivationStep::StartPollTimer,
                held: Held { engine: ok || h.engine, ..h },
            },
            ActivationStep::StartPollTimer => Activation {
                step: if h.profile_sink { ActivationStep::KeepThreadMgr } else { ActivationStep::AdviseProfile },
                held: Held { poll_timer: ok || h.poll_timer, ..h },
            },
            ActivationStep::AdviseProfile => Activation {
                step: ActivationStep::KeepThreadMgr,
                held: Held { profile_sink: ok || h.profile_sink, ..h },
            },
            ActivationStep::KeepThreadMgr => Activation {
                step: ActivationStep::ApplySettings,
                held: Held { thread_mgr: true, ..h },
            },
            ActivationStep::ApplySettings => Activation {
                step: if outcome == Outcome::ModeOn {
                    ActivationStep::AddLangBarItem
                } else {
                    ActivationStep::MarkActive
                },
                held: h,
            },
            ActivationStep::AddLangBarItem => Activation { step: ActivationStep::AdviseConversionSink, held: h },
            ActivationStep::AdviseConversionSink => Activation { step: ActivationStep::MarkActive, held: h },
            ActivationStep::MarkActive => Activation {
                step: ActivationStep::Succeed,
                held: Held { active: true, ..h },
            },
            ActivationStep::Succeed => *self,
            ActivationStep::Fail => *self,
        }
    }
}

/// A step of deactivation: the work the caller is to do next. Deactivation first commits the
/// half-typed text, then takes down what activation set up in the reverse order.
#[derive(Clone, Copy, PartialEq, Eq, Debug, Structural)]
pub enum DeactivationStep {
    /// Stop being the active service, so that no callback reaches it afterwards.
    ClearActive,
    /// Unadvise the conversion-mode sink.
    UnadviseConversionSink,
    /// Remove the language-bar button.
    RemoveLangBarItem,
    /// Commit the half-typed text as it stands.
    CommitPending,
    /// Give up the kept thread manager and query its keystroke manager; fails when the query
    /// fails, and then nothing registered with the keystroke manager can be taken down.
    ReleaseThreadMgr,
    /// Drop the preserved key of the Chinese/English switch, registered when the settings
    /// were applied.
    DropSwitchKey,
    /// Unadvise the input-profile sink through the thread manager just given up.
    UnadviseProfile,
    /// Stop the poll timer.
    StopPollTimer,
    /// Close the server session.
    CloseEngine,
    /// Unregister the translate shortcut.
    UnregisterTranslateKey,
    /// Unadvise the keystroke sink.
    UnadviseKeySink,
    /// Reset the state shared with the poll timer and leave the foreground.
    ResetShared,
    /// Deactivation is done.
    Finish,
}

/// Where a deactivation stands: the step the caller is to do, what is held, and whether the
/// keystroke manager was had when the thread manager was given up.
#[derive(Clone, Copy, PartialEq, Eq, Debug, Structural)]
pub struct Deactivation {
    pub step: DeactivationStep,
    pub held: Held,
    pub keystroke: bool,
}

/// The order of the deactivation steps.
pub open spec fn deactivation_rank(step: DeactivationStep) -> nat {
    match step {
        DeactivationStep::ClearActive => 0,
        DeactivationStep::UnadviseConversionSink => 1,
        DeactivationStep::RemoveLangBarItem => 2,
        DeactivationStep::CommitPending => 3,
        DeactivationStep::ReleaseThreadMgr => 4,
        DeactivationStep::DropSwitchKey => 5,
        DeactivationStep::UnadviseProfile => 6,
        DeactivationStep::StopPollTimer => 7,
        DeactivationStep::CloseEngine => 8,
        DeactivationStep::UnregisterTranslateKey => 9,
        DeactivationStep::UnadviseKeySink => 10,
        DeactivationStep::ResetShared => 11,
        DeactivationStep::Finish => 12,
    }
}

/// The step after the thread manager is given up and the switch key dealt with: unadvise the
/// profile sink when it is advised, else stop the poll timer.
pub open spec fn after_switch_key(h: Held) -> DeactivationStep {
    if h.profile_sink {
        DeactivationStep::UnadviseProfile
    } else {
        DeactivationStep::StopPollTimer
    }
}

/// The step after the server session is dealt with: with the keystroke manager, unregister
/// the translate shortcut when it is registered, then unadvise the keystroke sink; without
/// it, the final reset.
pub open spec fn after_engine(h: Held, keystroke: bool) -> DeactivationStep {
    if keystroke && h.translate_key {
        DeactivationStep::UnregisterTranslateKey
    } else if keystroke {
        DeactivationStep::UnadviseKeySink
    } else {
        DeactivationStep::ResetShared
    }
}

/// The deactivation after the step `d.step` came out as `outcome`. Only giving up the thread
/// manager has an outcome that matters: whether its keystroke manager was had.
pub open spec fn deactivation_after(d: Deactivation, outcome: Outcome) -> Deactivation {
    let h = d.held;
    let k = d.keystroke;
    match d.step {
        DeactivationStep::ClearActive => Deactivation {
            step: DeactivationStep::UnadviseConversionSink,
            held: Held { active: false, ..h },
            keystroke: k,
        },
        DeactivationStep::UnadviseConversionSink => Deactivation {
            step: DeactivationStep::RemoveLangBarItem,
            held: h,
            keystroke: k,
        },
        DeactivationStep::RemoveLangBarItem => Deactivation {
            step: DeactivationStep::CommitPending,
            held: h,
            keystroke: k,
        },
        DeactivationStep::CommitPending => Deactivation {
            step: if h.thread_mgr {
                DeactivationStep::ReleaseThreadMgr
            } else {
                DeactivationStep::StopPollTimer
            },
            held: h,
            keystroke: k,
        },
        DeactivationStep::ReleaseThreadMgr => Deactivation {
            step: if outcome == Outcome::Succeeded {
                DeactivationStep::DropSwitchKey
            } else {
                after_switch_key(h)
            },
            held: Held { thread_mgr: false, ..h },
            keystroke: outcome == Outcome::Succeeded,
        },
        DeactivationStep::DropSwitchKey => Deactivation {
            step: after_switch_key(h),
            held: h,
            keystroke: k,
        },
        DeactivationStep::UnadviseProfile => Deactivation {
            step: DeactivationStep::StopPollTimer,
            held: Held { profile_sink: false, ..h },
            keystroke: k,
        },
        DeactivationStep::StopPollTimer => Deactivation {
            step: if h.engine { DeactivationStep::CloseEngine } else { after_engine(h, k) },
            held: Held { poll_timer: false, ..h },
            keystroke: k,
        },
        DeactivationStep::CloseEngine => Deactivation {
            step: after_engine(h, k),
            held: Held { engine: false, ..h },
            keystroke: k,
        },
        DeactivationStep::UnregisterTranslateKey => Deactivation {
            step: DeactivationStep::UnadviseKeySink,
            held: Held { translate_key: false, ..h },
            keystroke: k,
        },
        DeactivationStep::UnadviseKeySink => Deactivation {
            step: DeactivationStep::ResetShared,
            held: Held { key_sink: false, ..h },
            keystroke: k,
        },
        DeactivationStep::ResetShared => Deactivation {
            step: DeactivationStep::Finish,
            held: h,
            keystroke: k,
        },
        DeactivationStep::Finish => d,
    }
}

impl Deactivation {
    /// Deactivation of a service that holds `held`: its first step clears the active service.
    pub fn start(held: Held) -> (d: Deactivation)
        ensures
            d == deactivation_from(held),
    {
        Deactivation { step: DeactivationStep::ClearActive, held, keystroke: false }
    }

    /// The deactivation after the current step came out as `outcome`.
    pub fn next(&self, outcome: Outcome) -> (after: Deactivation)
        ensures
            after == deactivation_after(*self, outcome),
    {
        let h = self.held;
        let k = self.keystroke;
        let after_switch_key = if h.profile_sink {
            DeactivationStep::UnadviseProfile
        } else {
            DeactivationStep::StopPollTimer
        };
        match self.step {
            DeactivationStep::ClearActive => Deactivation {
                step: DeactivationStep::UnadviseConversionSink,
                held: Held { active: false, ..h },
                keystroke: k,
            },
            DeactivationStep::UnadviseConversionSink => Deactivation {
                step: DeactivationStep::RemoveLangBarItem,
                held: h,
                keystroke: k,
            },
            DeactivationStep::RemoveLangBarItem => Deactivation {
                step: DeactivationStep::CommitPending,
                held: h,
                keystroke: k,
            },
            DeactivationStep::CommitPending => Deactivation {
                step: if h.thread_mgr {
                    DeactivationStep::ReleaseThreadMgr
                } else {
                    DeactivationStep::StopPollTimer
                },
                held: h,
                keystroke: k,
            },
            DeactivationStep::ReleaseThreadMgr => {
                let ok = outcome == Outcome::Succeeded;
                Deactivation {
                    step: if ok { DeactivationStep::DropSwitchKey } else { after_switch_key },
                    held: Held { thread_mgr: false, ..h },
                    keystroke: ok,
                }
            },
            DeactivationStep::DropSwitchKey => Deactivation {
                step: after_switch_key,
                held: h,
                keystroke: k,
            },
            DeactivationStep::UnadviseProfile => Deactivation {
                step: DeactivationStep::StopPollTimer,
                held: Held { profile_sink: false, ..h },
                keystroke: k,
            },
            DeactivationStep::StopPollTimer => Deactivation {
                step: if h.engine { DeactivationStep::CloseEngine } else { next_after_engine(h, k) },
                held: Held { poll_timer: false, ..h },
                keystroke: k,
            },
            DeactivationStep::CloseEngine => Deactivation {
                step: next_after_engine(h, k),
                held: Held { engine: false, ..h },
                keystroke: k,
            },
            DeactivationStep::UnregisterTranslateKey => Deactivation {
                step: DeactivationStep::UnadviseKeySink,
                held: Held { translate_key: false, ..h },
                keystroke: k,
            },
            DeactivationStep::UnadviseKeySink => Deactivation {
                step: DeactivationStep::ResetShared,
                held: Held { key_sink: false, ..h },
                keystroke: k,
            },
            DeactivationStep::ResetShared => Deactivation {
                step: DeactivationStep::Finish,
                held: h,
                keystroke: k,
            },
            DeactivationStep::Finish => *self,
        }
    }
}

fn next_after_engine(h: Held, keystroke: bool) -> (step: DeactivationStep)
    ensures
        step == after_engine(h, keystroke),
{
    if keystroke && h.translate_key {
        DeactivationStep::UnregisterTranslateKey
    } else if keystroke {
        DeactivationStep::UnadviseKeySink
    } else {
        DeactivationStep::ResetShared
    }
}

/// The activation reached from `a` when the steps come out as `outcomes`, in order.
pub open spec fn activation_run(a: Activation, outcomes: Seq<Outcome>) -> Activation
    decreases outcomes.len(),
{
    if outcomes.len() == 0 {
        a
    } else {
        activation_after(activation_run(a, outcomes.drop_last()), outcomes.last())
    }
}

/// The deactivation reached from `d` when the steps come out as `outcomes`, in order.
pub open spec fn deactivation_run(d: Deactivation, outcomes: Seq<Outcome>) -> Deactivation
    decreases outcomes.len(),
{
    if outcomes.len() == 0 {
        d
    } else {
        deactivation_after(deactivation_run(d, outcomes.drop_last()), outcomes.last())
    }
}

/// An activation that starts from `held`.
pub open spec fn activation_from(held: Held) -> Activation {
    Activation { step: ActivationStep::AcquireKeystrokeMgr, held }
}

/// A deactivation that starts from `held`.
pub open spec fn deactivation_from(held: Held) -> Deactivation {
    Deactivation { step: DeactivationStep::ClearActive, held, keystroke: false }
}

/// Each activation step moves on to a later step, until activation has ended; an ended
/// activation stays as it is.
pub proof fn lemma_activation_progresses(a: Activation, outcome: Outcome)
    ensures
        !activation_ended(a.step) ==> activation_rank(activation_after(a, outcome).step)
            > activation_rank(a.step),
        activation_ended(a.step) ==> activation_after(a, outcome) == a,
{
}

/// Activation gives up nothing that the service holds.
pub proof fn lemma_activation_gives_up_nothing(a: Activation, outcome: Outcome)
    ensures
        holds_at_least(a.held, activation_after(a, outcome).held),
{
}

/// The input-profile sink is advised only while it is not advised yet.
pub proof fn lemma_profile_advised_once(a: Activation, outcome: Outcome)
    ensures
        activation_after(a, outcome).step == ActivationStep::AdviseProfile
            ==> !activation_after(a, outcome).held.profile_sink,
{
}

/// The language-bar button is added only right after the settings were applied with the
/// built-in English mode on; with it off, activation goes straight to marking the service
/// active.
pub proof fn lemma_lang_bar_only_in_english_mode(a: Activation, outcome: Outcome)
    ensures
        activation_after(a, outcome).step == ActivationStep::AddLangBarItem <==> (a.step
            == ActivationStep::ApplySettings && outcome == Outcome::ModeOn),
        (a.step == ActivationStep::ApplySettings && outcome != Outcome::ModeOn)
            ==> activation_after(a, outcome).step == ActivationStep::MarkActive,
{
}

/// Which activation step comes next, by the step just done and its outcome. The keystroke
/// manager and the keystroke sink are the only steps whose failure stops activation; the
/// translate shortcut, the server, the poll timer and the profile sink are not fatal. The
/// profile sink is advised whenever it is not advised yet, whatever came of the server; the
/// language-bar button, added only with the built-in English mode on, is always followed by
/// the conversion-mode sink; the service is marked active last.
pub proof fn lemma_activation_successor(a: Activation, outcome: Outcome)
    ensures
        ({
            let s = a.step;
            let n = activation_after(a, outcome).step;
            let ok = outcome == Outcome::Succeeded;
            &&& (n == ActivationStep::AcquireKeystrokeMgr <==> false)
            &&& (n == ActivationStep::AdviseKeySink <==> s == ActivationStep::AcquireKeystrokeMgr
                && ok)
            &&& (n == ActivationStep::RegisterTranslateKey <==> s == ActivationStep::AdviseKeySink
                && ok)
            &&& (n == ActivationStep::Connect <==> s == ActivationStep::RegisterTranslateKey)
            &&& (n == ActivationStep::StartPollTimer <==> s == ActivationStep::Connect)
            &&& (n == ActivationStep::AdviseProfile <==> s == ActivationStep::StartPollTimer
                && !a.held.profile_sink)
            &&& (n == ActivationStep::KeepThreadMgr <==> s == ActivationStep::AdviseProfile || (s
                == ActivationStep::StartPollTimer && a.held.profile_sink))
            &&& (n == ActivationStep::ApplySettings <==> s == ActivationStep::KeepThreadMgr)
            &&& (n == ActivationStep::AddLangBarItem <==> s == ActivationStep::ApplySettings
                && outcome == Outcome::ModeOn)
            &&& (n == ActivationStep::AdviseConversionSink <==> s
                == ActivationStep::AddLangBarItem)
            &&& (n == ActivationStep::MarkActive <==> s == ActivationStep::AdviseConversionSink || (s
                == ActivationStep::ApplySettings && outcome != Outcome::ModeOn))
            &&& (n == ActivationStep::Succeed <==> s == ActivationStep::MarkActive || s
                == ActivationStep::Succeed)
            &&& (n == ActivationStep::Fail <==> s == ActivationStep::Fail || ((s
                == ActivationStep::AcquireKeystrokeMgr || s == ActivationStep::AdviseKeySink)
                && !ok))
        }),
{
}

/// What each activation step takes on: a thing becomes held only at its own step, when that
/// step succeeds (the thread manager and the active mark at their steps whatever the
/// outcome), and nothing held is ever given up.
pub proof fn lemma_activation_effect(a: Activation, outcome: Outcome)
    ensures
        ({
            let s = a.step;
            let h = a.held;
            let g = activation_after(a, outcome).held;
            let ok = outcome == Outcome::Succeeded;
            &&& g.key_sink == (h.key_sink || (s == ActivationStep::AdviseKeySink && ok))
            &&& g.translate_key == (h.translate_key || (s == ActivationStep::RegisterTranslateKey
                && ok))
            &&& g.engine == (h.engine || (s == ActivationStep::Connect && ok))
            &&& g.poll_timer == (h.poll_timer || (s == ActivationStep::StartPollTimer && ok))
            &&& g.profile_sink == (h.profile_sink || (s == ActivationStep::AdviseProfile && ok))
            &&& g.thread_mgr == (h.thread_mgr || s == ActivationStep::KeepThreadMgr)
            &&& g.active == (h.active || s == ActivationStep::MarkActive)
        }),
{
}

/// Which deactivation step comes next, by the step just done and its outcome. The commit
/// comes right after the language-bar button. Once the keystroke manager is had on giving
/// up the thread manager, the switch key is always dropped, and after the poll timer and the
/// server session the translate shortcut (when registered) is unregistered and the keystroke
/// sink unadvised, whether or not a server session was open; without the keystroke manager
/// both are skipped.
pub proof fn lemma_deactivation_successor(d: Deactivation, outcome: Outcome)
    ensures
        ({
            let s = d.step;
            let h = d.held;
            let k = d.keystroke;
            let n = deactivation_after(d, outcome).step;
            let ok = outcome == Outcome::Succeeded;
            let switch_done = (s == DeactivationStep::ReleaseThreadMgr && !ok) || s
                == DeactivationStep::DropSwitchKey;
            let session_done = (s == DeactivationStep::StopPollTimer && !h.engine) || s
                == DeactivationStep::CloseEngine;
            &&& (n == DeactivationStep::ClearActive <==> false)
            &&& (n == DeactivationStep::UnadviseConversionSink <==> s
                == DeactivationStep::ClearActive)
            &&& (n == DeactivationStep::RemoveLangBarItem <==> s
                == DeactivationStep::UnadviseConversionSink)
            &&& (n == DeactivationStep::CommitPending <==> s
                == DeactivationStep::RemoveLangBarItem)
            &&& (n == DeactivationStep::ReleaseThreadMgr <==> s == DeactivationStep::CommitPending
                && h.thread_mgr)
            &&& (n == DeactivationStep::DropSwitchKey <==> s == DeactivationStep::ReleaseThreadMgr
                && ok)
            &&& (n == DeactivationStep::UnadviseProfile <==> switch_done && h.profile_sink)
            &&& (n == DeactivationStep::StopPollTimer <==> s == DeactivationStep::UnadviseProfile
                || (s == DeactivationStep::CommitPending && !h.thread_mgr) || (switch_done
                && !h.profile_sink))
            &&& (n == DeactivationStep::CloseEngine <==> s == DeactivationStep::StopPollTimer
                && h.engine)
            &&& (n == DeactivationStep::UnregisterTranslateKey <==> session_done && k
                && h.translate_key)
            &&& (n == DeactivationStep::UnadviseKeySink <==> s
                == DeactivationStep::UnregisterTranslateKey || (session_done && k
                && !h.translate_key))
            &&& (n == DeactivationStep::ResetShared <==> s == DeactivationStep::UnadviseKeySink
                || (session_done && !k))
            &&& (n == DeactivationStep::Finish <==> s == DeactivationStep::ResetShared || s
                == DeactivationStep::Finish)
        }),
{
}

/// What each deactivation step gives up: a thing stops being held only at its own step, and
/// nothing is ever taken on. Whether the keystroke manager was had is set by giving up the
/// thread manager and kept afterwards.
pub proof fn lemma_deactivation_effect(d: Deactivation, outcome: Outcome)
    ensures
        ({
            let s = d.step;
            let h = d.held;
            let after = deactivation_after(d, outcome);
            let g = after.held;
            &&& g.active == (h.active && s != DeactivationStep::ClearActive)
            &&& g.thread_mgr == (h.thread_mgr && s != DeactivationStep::ReleaseThreadMgr)
            &&& g.profile_sink == (h.profile_sink && s != DeactivationStep::UnadviseProfile)
            &&& g.poll_timer == (h.poll_timer && s != DeactivationStep::StopPollTimer)
            &&& g.engine == (h.engine && s != DeactivationStep::CloseEngine)
            &&& g.translate_key == (h.translate_key && s
                != DeactivationStep::UnregisterTranslateKey)
            &&& g.key_sink == (h.key_sink && s != DeactivationStep::UnadviseKeySink)
            &&& after.keystroke == (if s == DeactivationStep::ReleaseThreadMgr {
                outcome == Outcome::Succeeded
            } else {
                d.keystroke
            })
        }),
{
}

spec fn activation_inv(a: Activation, start: Held) -> bool {
    let r = activation_rank(a.step);
    &&& holds_at_least(start, a.held)
    &&& (r <= 1 || a.step == ActivationStep::Fail) ==> a.held == start
    &&& (2 <= r <= 11 ==> a.held.key_sink)
    &&& (7 <= r <= 11 ==> a.held.thread_mgr)
    &&& (r == 11 ==> a.held.active)
}

/// What every run of activation keeps to, whatever the outcomes: nothing held is given up; a
/// failed activation has taken nothing; a successful one has advised the keystroke sink, kept
/// the thread manager and made the service active; and after eleven outcomes it has ended.
pub proof fn lemma_activation_run(start: Held, outcomes: Seq<Outcome>)
    ensures
        holds_at_least(start, activation_run(activation_from(start), outcomes).held),
        activation_run(activation_from(start), outcomes).step == ActivationStep::Fail
            ==> activation_run(activation_from(start), outcomes).held == start,
        activation_run(activation_from(start), outcomes).step == ActivationStep::Succeed ==> {
            let h = activation_run(activation_from(start), outcomes).held;
            h.key_sink && h.thread_mgr && h.active
        },
        outcomes.len() >= 11 ==> activation_ended(
            activation_run(activation_from(start), outcomes).step,
        ),
    decreases outcomes.len(),
{
    lemma_activation_run_inv(start, outcomes);
}

proof fn lemma_activation_run_inv(start: Held, outcomes: Seq<Outcome>)
    ensures
        activation_inv(activation_run(activation_from(start), outcomes), start),
        activation_ended(activation_run(activation_from(start), outcomes).step)
            || activation_rank(activation_run(activation_from(start), outcomes).step)
            >= outcomes.len(),
    decreases outcomes.len(),
{
    if outcomes.len() > 0 {
        lemma_activation_run_inv(start, outcomes.drop_last());
        let prev = activation_run(activation_from(start), outcomes.drop_last());
        lemma_activation_progresses(prev, outcomes.last());
    }
}

/// Each deactivation step moves on to a later step, until deactivation has finished.
pub proof fn lemma_deactivation_progresses(d: Deactivation, outcome: Outcome)
    ensures
        d.step != DeactivationStep::Finish ==> deactivation_rank(
            deactivation_after(d, outcome).step,
        ) > deactivation_rank(d.step),
        d.step == DeactivationStep::Finish ==> deactivation_after(d, outcome) == d,
{
}

spec fn deactivation_inv(d: Deactivation, start: Held, released_ok: bool) -> bool {
    let r = deactivation_rank(d.step);
    let h = d.held;
    &&& (r >= 1 ==> !h.active)
    &&& (r <= 4 ==> h.thread_mgr == start.thread_mgr)
    &&& (r >= 5 ==> !h.thread_mgr)
    &&& (r <= 4 ==> !d.keystroke)
    &&& (r >= 5 ==> d.keystroke == released_ok)
    &&& (d.keystroke ==> start.thread_mgr)
    &&& (d.step == DeactivationStep::DropSwitchKey ==> d.keystroke)
    &&& (d.step == DeactivationStep::UnadviseProfile ==> start.thread_mgr)
    &&& (r <= 6 ==> h.profile_sink == start.profile_sink)
    &&& (r >= 7 ==> h.profile_sink == (start.profile_sink && !start.thread_mgr))
    &&& (r <= 7 ==> h.poll_timer == start.poll_timer)
    &&& (r >= 8 ==> !h.poll_timer)
    &&& (r <= 8 ==> h.engine == start.engine)
    &&& (r >= 9 ==> !h.engine)
    &&& (r <= 9 ==> h.translate_key == start.translate_key)
    &&& (r >= 10 ==> (d.keystroke ==> !h.translate_key))
    &&& (r >= 10 && !d.keystroke ==> h.translate_key == start.translate_key)
    &&& (r <= 10 ==> h.key_sink == start.key_sink)
    &&& (r >= 11 ==> (d.keystroke ==> !h.key_sink))
    &&& (r >= 11 && !d.keystroke ==> h.key_sink == start.key_sink)
    &&& (d.step == DeactivationStep::UnregisterTranslateKey || d.step
        == DeactivationStep::UnadviseKeySink ==> d.keystroke)
}

/// Whether the keystroke manager was had when giving up the thread manager: the outcome of
/// the fifth step, which is that one when the thread manager was kept.
pub open spec fn release_succeeded(start: Held, outcomes: Seq<Outcome>) -> bool {
    start.thread_mgr && outcomes.len() >= 5 && outcomes[4] == Outcome::Succeeded
}

proof fn lemma_deactivation_run_inv(start: Held, outcomes: Seq<Outcome>)
    ensures
        deactivation_inv(
            deactivation_run(deactivation_from(start), outcomes),
            start,
            release_succeeded(start, outcomes),
        ),
        deactivation_run(deactivation_from(start), outcomes).step == DeactivationStep::Finish
            || deactivation_rank(deactivation_run(deactivation_from(start), outcomes).step)
            >= outcomes.len(),
        outcomes.len() <= 3 ==> deactivation_rank(
            deactivation_run(deactivation_from(start), outcomes).step,
        ) == outcomes.len(),
        outcomes.len() == 4 ==> deactivation_run(deactivation_from(start), outcomes).step == (
        if start.thread_mgr {
            DeactivationStep::ReleaseThreadMgr
        } else {
            DeactivationStep::StopPollTimer
        }),
    decreases outcomes.len(),
{
    if outcomes.len() > 0 {
        let rest = outcomes.drop_last();
        lemma_deactivation_run_inv(start, rest);
        let prev = deactivation_run(deactivation_from(start), rest);
        lemma_deactivation_progresses(prev, outcomes.last());
        if outcomes.len() >= 6 {
            assert(rest[4] == outcomes[4]);
            assert(release_succeeded(start, rest) == release_succeeded(start, outcomes));
        }
        if outcomes.len() == 5 {
            assert(outcomes.last() == outcomes[4]);
        }
    }
}

/// Whatever the outcomes, deactivation first stops being the active service (so no
/// callback reaches it afterwards), then unadvises the conversion-mode sink, removes the
/// language-bar button and commits the half-typed text.
pub proof fn lemma_deactivation_order(start: Held, outcomes: Seq<Outcome>)
    requires
        outcomes.len() <= 3,
    ensures
        deactivation_run(deactivation_from(start), outcomes).step == (if outcomes.len() == 0 {
            DeactivationStep::ClearActive
        } else if outcomes.len() == 1 {
            DeactivationStep::UnadviseConversionSink
        } else if outcomes.len() == 2 {
            DeactivationStep::RemoveLangBarItem
        } else {
            DeactivationStep::CommitPending
        }),
{
    lemma_deactivation_run_inv(start, outcomes);
}

/// Every deactivation that has gone past the commit committed the half-typed text as its
/// fourth step: before it gave up the thread manager, unadvised any sink, stopped the poll
/// timer or closed the server session.
pub proof fn lemma_commit_before_teardown(start: Held, outcomes: Seq<Outcome>)
    requires
        deactivation_rank(deactivation_run(deactivation_from(start), outcomes).step)
            > deactivation_rank(DeactivationStep::CommitPending),
    ensures
        outcomes.len() > 3,
        deactivation_run(deactivation_from(start), outcomes.take(3)).step
            == DeactivationStep::CommitPending,
{
    lemma_deactivation_run_inv(start, outcomes);
    lemma_deactivation_run_inv(start, outcomes.take(3));
}

/// Deactivation finishes within twelve outcomes. A finished deactivation is no longer the
/// active service, has given up the thread manager, stopped the poll timer and closed the
/// server session; it has unadvised the input-profile sink when the thread manager was kept,
/// and left it as it was otherwise. When the keystroke manager was had
/// on giving up the thread manager, it has also unregistered the translate shortcut and
/// unadvised the keystroke sink; when it was not, these stay as they were.
pub proof fn lemma_deactivation_run(start: Held, outcomes: Seq<Outcome>)
    ensures
        outcomes.len() >= 12 ==> deactivation_run(deactivation_from(start), outcomes).step
            == DeactivationStep::Finish,
        deactivation_run(deactivation_from(start), outcomes).step == DeactivationStep::Finish
            ==> {
            let d = deactivation_run(deactivation_from(start), outcomes);
            let h = d.held;
            &&& !h.active
            &&& !h.thread_mgr
            &&& h.profile_sink == (start.profile_sink && !start.thread_mgr)
            &&& !h.poll_timer
            &&& !h.engine
            &&& d.keystroke == release_succeeded(start, outcomes)
            &&& release_succeeded(start, outcomes) ==> !h.translate_key && !h.key_sink
            &&& !release_succeeded(start, outcomes) ==> h.translate_key == start.translate_key
                && h.key_sink == start.key_sink
        },
{
    lemma_deactivation_run_inv(start, outcomes);
}

/// Deactivation undoes a successful activation: once it has finished, having had the
/// keystroke manager on giving up the thread manager, the service holds nothing.
pub proof fn lemma_deactivation_undoes_activation(
    start: Held,
    activation_outcomes: Seq<Outcome>,
    deactivation_outcomes: Seq<Outcome>,
)
    requires
        activation_run(activation_from(start), activation_outcomes).step
            == ActivationStep::Succeed,
        deactivation_outcomes.len() >= 12,
        deactivation_outcomes[4] == Outcome::Succeeded,
    ensures
        ({
            let active = activation_run(activation_from(start), activation_outcomes).held;
            deactivation_run(deactivation_from(active), deactivation_outcomes).held
                == nothing_held()
        }),
{
    lemma_activation_run(start, activation_outcomes);
    let active = activation_run(activation_from(start), activation_outcomes).held;
    lemma_deactivation_run(active, deactivation_outcomes);
}

} // verus!
