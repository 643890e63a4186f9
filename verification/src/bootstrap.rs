//! The start-up sequence and the close interceptor.
//!
//! Start-up runs through a fixed list of stages. A stage that fails aborts
//! the launch: there is no partial start. Once the event loop runs, a
//! request to close the main window is either left to the system or turned
//! into hiding the window, by platform.

use vstd::prelude::*;
use crate::platform::Platform;

verus! {

/// One stage of the start-up, in the order in which they run.
#[derive(Clone, Copy, Debug, PartialEq, Eq, Structural)]
pub enum BootStage {
    InitLogging,
    RegisterPlugins,
    BuildMenu,
    BuildTray,
    FindMainWindow,
    SetTitle,
    InstallCloseHandler,
    EventLoop,
}

/// Where the start-up stands after a stage.
#[derive(Clone, Copy, Debug, PartialEq, Eq, Structural)]
pub enum Progress {
    /// Go on with the given stage.
    Continue(BootStage),
    /// Every stage is done: the event loop has ended.
    Finished,
    /// The launch is aborted; the stage that failed is named.
    Aborted(BootStage),
}

/// What to do when the user asks to close the main window.
#[derive(Clone, Copy, Debug, PartialEq, Eq, Structural)]
pub enum CloseDecision {
    /// Prevent the close and hide the window; process and tray live on.
    HideToTray,
    /// Let the close go ahead.
    Proceed,
}

impl BootStage {
    /// The position of the stage in the sequence, from 0.
    pub open spec fn rank(self) -> int {
        match self {
            BootStage::InitLogging => 0,
            BootStage::RegisterPlugins => 1,
            BootStage::BuildMenu => 2,
            BootStage::BuildTray => 3,
            BootStage::FindMainWindow => 4,
            BootStage::SetTitle => 5,
            BootStage::InstallCloseHandler => 6,
            BootStage::EventLoop => 7,
        }
    }

    /// The first stage.
    pub fn first() -> (r: BootStage)
        ensures
            r.rank() == 0,
    {
        BootStage::InitLogging
    }
}

/// Where the start-up stands after `stage` ended: after a success, at the
/// stage of the next rank, or finished after the last; after a failure,
/// aborted at `stage`.
pub open spec fn progress_after(stage: BootStage, succeeded: bool) -> Progress {
    if !succeeded {
        Progress::Aborted(stage)
    } else {
        match stage {
            BootStage::InitLogging => Progress::Continue(BootStage::RegisterPlugins),
            BootStage::RegisterPlugins => Progress::Continue(BootStage::BuildMenu),
            BootStage::BuildMenu => Progress::Continue(BootStage::BuildTray),
            BootStage::BuildTray => Progress::Continue(BootStage::FindMainWindow),
            BootStage::FindMainWindow => Progress::Continue(BootStage::SetTitle),
            BootStage::SetTitle => Progress::Continue(BootStage::InstallCloseHandler),
            BootStage::InstallCloseHandler => Progress::Continue(BootStage::EventLoop),
            BootStage::EventLoop => Progress::Finished,
        }
    }
}

/// Decides how the start-up goes on after a stage ended.
pub fn advance(stage: BootStage, succeeded: bool) -> (r: Progress)
    ensures
        r == progress_after(stage, succeeded),
{
    if !succeeded {
        return Progress::Aborted(stage);
    }
    match stage {
        BootStage::InitLogging => Progress::Continue(BootStage::RegisterPlugins),
        BootStage::RegisterPlugins => Progress::Continue(BootStage::BuildMenu),
        BootStage::BuildMenu => Progress::Continue(BootStage::BuildTray),
        BootStage::BuildTray => Progress::Continue(BootStage::FindMainWindow),
        BootStage::FindMainWindow => Progress::Continue(BootStage::SetTitle),
        BootStage::SetTitle => Progress::Continue(BootStage::InstallCloseHandler),
        BootStage::InstallCloseHandler => Progress::Continue(BootStage::EventLoop),
        BootStage::EventLoop => Progress::Finished,
    }
}

/// The start-up never skips a stage and never goes back: a stage that
/// succeeded is followed by the stage of the next rank, and only a failure
/// aborts.
pub proof fn lemma_stages_in_order(stage: BootStage, succeeded: bool)
    ensures
        progress_after(stage, succeeded) is Aborted <==> !succeeded,
        progress_after(stage, succeeded) matches Progress::Continue(next) ==> next.rank()
            == stage.rank() + 1,
        progress_after(stage, succeeded) is Finished <==> succeeded && stage
            == BootStage::EventLoop,
{
}

/// The label of the main window.
pub fn main_window_label() -> (r: &'static str)
    ensures
        r@ == "main"@,
{
    "main"
}

/// The title that the main window gets at start-up.
pub fn window_title() -> (r: &'static str)
    ensures
        r@ == "Read Master"@,
{
    "Read Master"
}

/// Decides what a request to close the main window does: on macOS the
/// window is hidden and the close prevented, elsewhere the close proceeds.
pub fn on_close_requested(platform: Platform) -> (r: CloseDecision)
    ensures
        r == CloseDecision::HideToTray <==> platform == Platform::MacOs,
        r == CloseDecision::Proceed <==> platform != Platform::MacOs,
{
    match platform {
        Platform::MacOs => CloseDecision::HideToTray,
        _ => CloseDecision::Proceed,
    }
}

} // verus!
