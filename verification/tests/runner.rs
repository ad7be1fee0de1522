use holo_rea::runner::{state_signal_to_stdout, StateSignal};

#[test]
fn every_signal_prints_its_code() {
    assert_eq!(state_signal_to_stdout(&StateSignal::IsFirstRun), 0);
    assert_eq!(state_signal_to_stdout(&StateSignal::IsNotFirstRun), 1);
    assert_eq!(state_signal_to_stdout(&StateSignal::CreatingKeys), 2);
    assert_eq!(state_signal_to_stdout(&StateSignal::RegisteringDna), 3);
    assert_eq!(state_signal_to_stdout(&StateSignal::InstallingApp), 4);
    assert_eq!(state_signal_to_stdout(&StateSignal::EnablingApp), 5);
    assert_eq!(state_signal_to_stdout(&StateSignal::AddingAppInterface), 6);
    assert_eq!(state_signal_to_stdout(&StateSignal::IsReady), 7);
}
