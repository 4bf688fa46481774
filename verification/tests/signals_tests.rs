use easyinit::shutdown::ShutdownReason;
use easyinit::signals::SignalDisposition;
use easyinit::signals::is_hardware_fault_signal;
use easyinit::signals::signal_policy;

#[test]
fn termination_signals_translate_to_user_shutdown() {
    assert_eq!(
        signal_policy(15),
        SignalDisposition::Translate(ShutdownReason::User)
    );
    assert_eq!(
        signal_policy(2),
        SignalDisposition::Translate(ShutdownReason::User)
    );
}

#[test]
fn power_failure_signal_translates_to_power_shutdown() {
    assert_eq!(
        signal_policy(30),
        SignalDisposition::Translate(ShutdownReason::Power)
    );
}

#[test]
fn user_defined_signals_are_ignored() {
    assert_eq!(signal_policy(10), SignalDisposition::Ignore);
    assert_eq!(signal_policy(12), SignalDisposition::Ignore);
}

#[test]
fn hardware_fault_signals_keep_their_default_disposition() {
    for signo in [7, 8, 4, 11] {
        assert!(is_hardware_fault_signal(signo));
        assert_eq!(signal_policy(signo), SignalDisposition::Default);
    }
    assert!(!is_hardware_fault_signal(15));
    assert!(!is_hardware_fault_signal(9));
}

#[test]
fn unlisted_signals_keep_their_default_disposition() {
    assert_eq!(signal_policy(1), SignalDisposition::Default);
    assert_eq!(signal_policy(17), SignalDisposition::Default);
}
