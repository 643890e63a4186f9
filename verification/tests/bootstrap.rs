use read_master_desktop::bootstrap::{
    advance, main_window_label, on_close_requested, window_title, BootStage, CloseDecision,
    Progress,
};
use read_master_desktop::platform::Platform;

#[test]
fn stages_run_in_order() {
    let expected = [
        BootStage::InitLogging,
        BootStage::RegisterPlugins,
        BootStage::BuildMenu,
        BootStage::BuildTray,
        BootStage::FindMainWindow,
        BootStage::SetTitle,
        BootStage::InstallCloseHandler,
        BootStage::EventLoop,
    ];
    let mut stage = BootStage::first();
    let mut seen = vec![stage];
    loop {
        match advance(stage, true) {
            Progress::Continue(next) => {
                seen.push(next);
                stage = next;
            }
            Progress::Finished => break,
            Progress::Aborted(_) => panic!("a stage that succeeded aborted the launch"),
        }
    }
    assert_eq!(seen, expected.to_vec());
}

#[test]
fn a_failed_stage_aborts_the_launch() {
    assert_eq!(advance(BootStage::BuildMenu, false), Progress::Aborted(BootStage::BuildMenu));
    assert_eq!(advance(BootStage::BuildTray, false), Progress::Aborted(BootStage::BuildTray));
    assert_eq!(
        advance(BootStage::FindMainWindow, false),
        Progress::Aborted(BootStage::FindMainWindow)
    );
    assert_eq!(advance(BootStage::EventLoop, false), Progress::Aborted(BootStage::EventLoop));
}

#[test]
fn close_hides_to_tray_on_macos_only() {
    assert_eq!(on_close_requested(Platform::MacOs), CloseDecision::HideToTray);
    assert_eq!(on_close_requested(Platform::Windows), CloseDecision::Proceed);
    assert_eq!(on_close_requested(Platform::Linux), CloseDecision::Proceed);
    assert_eq!(on_close_requested(Platform::Unknown), CloseDecision::Proceed);
}

#[test]
fn main_window_names() {
    assert_eq!(main_window_label(), "main");
    assert_eq!(window_title(), "Read Master");
}
