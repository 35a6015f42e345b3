use qingjian::service::ActivationStep::{
    AcquireKeystrokeMgr, AddLangBarItem, AdviseConversionSink, AdviseKeySink, AdviseProfile,
    ApplySettings, Connect, KeepThreadMgr, MarkActive, RegisterTranslateKey, StartPollTimer,
    Succeed,
};
use qingjian::service::DeactivationStep::{
    ClearActive, CloseEngine, CommitPending, DropSwitchKey, Finish, ReleaseThreadMgr,
    RemoveLangBarItem, ResetShared, StopPollTimer, UnadviseConversionSink, UnadviseKeySink,
    UnadviseProfile, UnregisterTranslateKey,
};
use qingjian::service::Outcome::{Failed, ModeOff, ModeOn, Succeeded};
use qingjian::service::{
    Activation, ActivationStep, Deactivation, DeactivationStep, Held, Outcome,
};

fn activate(start: Held, outcomes: &[Outcome]) -> (Vec<ActivationStep>, Activation) {
    let mut a = Activation::start(start);
    let mut steps = vec![a.step];
    for &o in outcomes {
        a = a.next(o);
        steps.push(a.step);
    }
    (steps, a)
}

fn deactivate(start: Held, outcomes: &[Outcome]) -> (Vec<DeactivationStep>, Deactivation) {
    let mut d = Deactivation::start(start);
    let mut steps = vec![d.step];
    for &o in outcomes {
        d = d.next(o);
        steps.push(d.step);
    }
    (steps, d)
}


#[test]
fn activation_in_english_mode_takes_every_step() {
    let (steps, a) = activate(
        Held::nothing(),
        &[Succeeded, Succeeded, Succeeded, Succeeded, Succeeded, Succeeded, Succeeded, ModeOn,
          Succeeded, Succeeded, Succeeded],
    );
    assert_eq!(
        steps,
        vec![AcquireKeystrokeMgr, AdviseKeySink, RegisterTranslateKey, Connect, StartPollTimer,
             AdviseProfile, KeepThreadMgr, ApplySettings, AddLangBarItem, AdviseConversionSink,
             MarkActive, Succeed]
    );
    assert_eq!(
        a.held,
        Held { thread_mgr: true, key_sink: true, translate_key: true, engine: true,
               poll_timer: true, profile_sink: true, active: true }
    );
}

#[test]
fn activation_without_english_mode_skips_the_lang_bar() {
    let mut start = Held::nothing();
    start.profile_sink = true;
    let (steps, a) = activate(
        start,
        &[Succeeded, Succeeded, Failed, Failed, Failed, Succeeded, ModeOff, Succeeded],
    );
    assert_eq!(
        steps,
        vec![AcquireKeystrokeMgr, AdviseKeySink, RegisterTranslateKey, Connect, StartPollTimer,
             KeepThreadMgr, ApplySettings, MarkActive, Succeed]
    );
    assert_eq!(
        a.held,
        Held { thread_mgr: true, key_sink: true, translate_key: false, engine: false,
               poll_timer: false, profile_sink: true, active: true }
    );
}

#[test]
fn activation_fails_without_a_keystroke_manager() {
    let (steps, a) = activate(Held::nothing(), &[Failed, Succeeded]);
    assert_eq!(
        steps,
        vec![ActivationStep::AcquireKeystrokeMgr, ActivationStep::Fail, ActivationStep::Fail]
    );
    assert_eq!(a.held, Held::nothing());
}

#[test]
fn activation_fails_when_the_key_sink_is_refused() {
    let (steps, a) = activate(Held::nothing(), &[Succeeded, Failed]);
    assert_eq!(steps[2], ActivationStep::Fail);
    assert!(!a.held.key_sink);
}

#[test]
fn deactivation_undoes_a_full_activation() {
    let all = Held { thread_mgr: true, key_sink: true, translate_key: true, engine: true,
                     poll_timer: true, profile_sink: true, active: true };
    let (steps, d) = deactivate(all, &[Succeeded; 12]);
    assert_eq!(
        steps,
        vec![ClearActive, UnadviseConversionSink, RemoveLangBarItem, CommitPending,
             ReleaseThreadMgr, DropSwitchKey, UnadviseProfile, StopPollTimer, CloseEngine,
             UnregisterTranslateKey, UnadviseKeySink, ResetShared, Finish]
    );
    assert_eq!(d.held, Held::nothing());
    assert!(d.keystroke);
}

#[test]
fn activation_then_deactivation_holds_nothing() {
    let (_, a) = activate(
        Held::nothing(),
        &[Succeeded, Succeeded, Succeeded, Succeeded, Succeeded, Succeeded, Succeeded, ModeOn,
          Succeeded, Succeeded, Succeeded],
    );
    assert_eq!(a.step, Succeed);
    let (_, d) = deactivate(a.held, &[Succeeded; 12]);
    assert_eq!(d.step, Finish);
    assert_eq!(d.held, Held::nothing());
}

#[test]
fn deactivation_skips_what_is_not_held() {
    let mut start = Held::nothing();
    start.active = true;
    let (steps, d) = deactivate(start, &[Succeeded; 6]);
    assert_eq!(
        steps,
        vec![ClearActive, UnadviseConversionSink, RemoveLangBarItem, CommitPending,
             StopPollTimer, ResetShared, Finish]
    );
    assert_eq!(d.held, Held::nothing());
    assert!(!d.keystroke);
}

#[test]
fn deactivation_keeps_keys_when_the_keystroke_manager_is_gone() {
    let start = Held { thread_mgr: true, key_sink: true, translate_key: true, engine: true,
                       poll_timer: true, profile_sink: true, active: true };
    let (steps, d) = deactivate(start, &[Succeeded, Succeeded, Succeeded, Succeeded, Failed,
                                          Succeeded, Succeeded, Succeeded, Succeeded]);
    assert_eq!(
        steps,
        vec![ClearActive, UnadviseConversionSink, RemoveLangBarItem, CommitPending,
             ReleaseThreadMgr, UnadviseProfile, StopPollTimer, CloseEngine, ResetShared, Finish]
    );
    assert!(d.held.key_sink);
    assert!(d.held.translate_key);
    assert!(!d.held.thread_mgr);
    assert!(!d.held.profile_sink);
    assert!(!d.held.engine);
    assert!(!d.keystroke);
}

#[test]
fn deactivation_commits_before_closing_the_session() {
    let all = Held { thread_mgr: true, key_sink: true, translate_key: false, engine: true,
                     poll_timer: true, profile_sink: false, active: true };
    let (steps, _) = deactivate(all, &[Succeeded; 12]);
    let commit = steps.iter().position(|s| *s == CommitPending).unwrap();
    let release = steps.iter().position(|s| *s == ReleaseThreadMgr).unwrap();
    let close = steps.iter().position(|s| *s == CloseEngine).unwrap();
    let unadvise = steps.iter().position(|s| *s == UnadviseKeySink).unwrap();
    assert_eq!(commit, 3);
    assert!(commit < release && release < close && close < unadvise);
    assert_eq!(steps[0], ClearActive);
}

#[test]
fn deactivation_without_thread_manager_keeps_the_profile_sink() {
    let mut start = Held::nothing();
    start.profile_sink = true;
    start.engine = true;
    let (steps, d) = deactivate(start, &[Succeeded; 7]);
    assert_eq!(
        steps,
        vec![ClearActive, UnadviseConversionSink, RemoveLangBarItem, CommitPending,
             StopPollTimer, CloseEngine, ResetShared, Finish]
    );
    assert!(d.held.profile_sink);
    assert!(!d.held.engine);
}
