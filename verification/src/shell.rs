//! The application context: what the handlers may change.
//!
//! A [`Shell`] records whether the main window is visible and focused and
//! whether the process has been asked to end. It gives the window actions
//! their meaning, and it is the one owner through which events are
//! dispatched: once an exit has been asked for, nothing is dispatched any
//! more.

use vstd::prelude::*;
use crate::ids::{ItemId, lookup};
use crate::tray::{
    icon_actions, is_toggle, menu_actions, on_menu_event, on_tray_icon_event, TrayIconEvent,
    WindowAction,
};

verus! {

/// The state of the main window and of the process.
#[derive(Clone, Copy, Debug, PartialEq, Eq, Structural)]
pub struct Shell {
    /// Whether the main window is visible.
    pub visible: bool,
    /// Whether the main window has input focus.
    pub focused: bool,
    /// The exit code, once the process was asked to end.
    pub exit_code: Option<i32>,
}

impl Shell {
    /// Whether events are still dispatched.
    pub open spec fn running(self) -> bool {
        self.exit_code is None
    }

    /// The shell after one action. After an exit nothing changes any more.
    pub open spec fn apply(self, action: WindowAction) -> Shell {
        if !self.running() {
            self
        } else {
            match action {
                WindowAction::Show => Shell { visible: true, ..self },
                WindowAction::Focus => Shell { focused: true, ..self },
                WindowAction::Hide => Shell { visible: false, focused: false, ..self },
                WindowAction::Navigate(_) => self,
                WindowAction::Exit(code) => Shell { exit_code: Some(code), ..self },
            }
        }
    }

    /// The shell after a list of actions, performed in order.
    pub open spec fn apply_all(self, actions: Seq<WindowAction>) -> Shell
        decreases actions.len(),
    {
        if actions.len() == 0 {
            self
        } else {
            self.apply(actions[0]).apply_all(actions.skip(1))
        }
    }

    /// What a menu activation asks of this shell: nothing once it has
    /// stopped.
    pub open spec fn menu_response(self, id: Seq<char>) -> Seq<WindowAction> {
        if self.running() {
            menu_actions(lookup(id))
        } else {
            Seq::<WindowAction>::empty()
        }
    }

    /// What a pointer event on the tray icon asks of this shell.
    pub open spec fn icon_response(self, event: TrayIconEvent) -> Seq<WindowAction> {
        if self.running() {
            icon_actions(event, Some(self.visible))
        } else {
            Seq::<WindowAction>::empty()
        }
    }

    /// The shell after a menu activation.
    pub open spec fn after_menu_event(self, id: Seq<char>) -> Shell {
        self.apply_all(self.menu_response(id))
    }

    /// The shell after a pointer event on the tray icon.
    pub open spec fn after_icon_event(self, event: TrayIconEvent) -> Shell {
        self.apply_all(self.icon_response(event))
    }

    /// A running shell whose window is in the given state.
    pub fn new(visible: bool, focused: bool) -> (r: Shell)
        ensures
            r == (Shell { visible, focused, exit_code: None }),
    {
        Shell { visible, focused, exit_code: None }
    }

    /// Whether events are still dispatched.
    pub fn is_running(&self) -> (r: bool)
        ensures
            r == self.running(),
    {
        self.exit_code.is_none()
    }

    /// Performs one action.
    pub fn perform(&mut self, action: WindowAction)
        ensures
            *final(self) == old(self).apply(action),
    {
        if self.exit_code.is_none() {
            match action {
                WindowAction::Show => {
                    self.visible = true;
                },
                WindowAction::Focus => {
                    self.focused = true;
                },
                WindowAction::Hide => {
                    self.visible = false;
                    self.focused = false;
                },
                WindowAction::Navigate(_) => {},
                WindowAction::Exit(code) => {
                    self.exit_code = Some(code);
                },
            }
        }
    }

    /// Performs a list of actions in order.
    pub fn perform_all(&mut self, actions: &Vec<WindowAction>)
        ensures
            *final(self) == old(self).apply_all(actions@),
    {
        let mut i: usize = 0;
        assert(actions@.skip(0) =~= actions@);
        while i < actions.len()
            invariant
                i <= actions.len(),
                self.apply_all(actions@.skip(i as int)) == old(self).apply_all(actions@),
            decreases actions.len() - i,
        {
            proof {
                let rest = actions@.skip(i as int);
                assert(rest[0] == actions@[i as int]);
                assert(rest.skip(1) =~= actions@.skip(i as int + 1));
            }
            self.perform(actions[i]);
            i += 1;
        }
    }

    /// Dispatches the activation of a menu item and performs what it asks
    /// for. Returns the actions, for the caller to perform on the real
    /// window. A shell that has stopped dispatches nothing and stays as it
    /// is.
    pub fn handle_menu_event(&mut self, id: &str) -> (r: Vec<WindowAction>)
        ensures
            r@ == old(self).menu_response(id@),
            *final(self) == old(self).after_menu_event(id@),
    {
        if self.exit_code.is_some() {
            return Vec::new();
        }
        let actions = on_menu_event(id);
        self.perform_all(&actions);
        actions
    }

    /// Dispatches a pointer event on the tray icon and performs what it
    /// asks for. Returns the actions, for the caller to perform on the real
    /// window. A shell that has stopped dispatches nothing and stays as it
    /// is.
    pub fn handle_icon_event(&mut self, event: TrayIconEvent) -> (r: Vec<WindowAction>)
        ensures
            r@ == old(self).icon_response(event),
            *final(self) == old(self).after_icon_event(event),
    {
        if self.exit_code.is_some() {
            return Vec::new();
        }
        let actions = on_tray_icon_event(event, Some(self.visible));
        self.perform_all(&actions);
        actions
    }
}

/// Showing and focusing leaves a running shell visible and focused.
pub proof fn lemma_show_and_focus(shell: Shell)
    requires
        shell.running(),
    ensures
        shell.apply_all(seq![WindowAction::Show, WindowAction::Focus]) == (Shell {
            visible: true,
            focused: true,
            exit_code: None,
        }),
{
    reveal_with_fuel(Shell::apply_all, 3);
    let actions = seq![WindowAction::Show, WindowAction::Focus];
    assert(actions.skip(1) =~= seq![WindowAction::Focus]);
    assert(actions.skip(1).skip(1) =~= Seq::<WindowAction>::empty());
}

/// The quit item of the tray ends a running shell with exit code 0, and a
/// shell that has ended dispatches nothing: every later event asks for no
/// action and leaves the shell as it is.
pub proof fn lemma_quit_is_final(shell: Shell, later_id: Seq<char>, later_event: TrayIconEvent)
    requires
        shell.running(),
    ensures
        shell.menu_response(ItemId::TrayQuit.name()) == seq![WindowAction::Exit(0)],
        shell.after_menu_event(ItemId::TrayQuit.name()).exit_code == Some(0i32),
        shell.after_menu_event(ItemId::TrayQuit.name()).menu_response(later_id).len() == 0,
        shell.after_menu_event(ItemId::TrayQuit.name()).icon_response(later_event).len() == 0,
        shell.after_menu_event(ItemId::TrayQuit.name()).after_menu_event(later_id)
            == shell.after_menu_event(ItemId::TrayQuit.name()),
        shell.after_menu_event(ItemId::TrayQuit.name()).after_icon_event(later_event)
            == shell.after_menu_event(ItemId::TrayQuit.name()),
{
    crate::ids::lemma_lookup_round_trip(ItemId::TrayQuit, ItemId::TrayQuit.name());
    reveal_with_fuel(Shell::apply_all, 3);
    let actions = seq![WindowAction::Exit(0)];
    assert(actions.skip(1) =~= Seq::<WindowAction>::empty());
}

/// A release of the left button on the icon hides a visible window, and the
/// next one makes it visible and focused again.
pub proof fn lemma_click_toggles(shell: Shell, click: TrayIconEvent)
    requires
        shell.running(),
        shell.visible,
        is_toggle(click),
    ensures
        !shell.after_icon_event(click).visible,
        shell.after_icon_event(click).after_icon_event(click).visible,
        shell.after_icon_event(click).after_icon_event(click).focused,
        shell.after_icon_event(click).after_icon_event(click).running(),
{
    reveal_with_fuel(Shell::apply_all, 3);
    let hide = seq![WindowAction::Hide];
    assert(hide.skip(1) =~= Seq::<WindowAction>::empty());
    let hidden = shell.after_icon_event(click);
    assert(hidden == shell.apply(WindowAction::Hide));
    lemma_show_and_focus(hidden);
}

/// A double click leaves a running shell visible and focused, whatever it
/// was before, and a second one changes nothing.
pub proof fn lemma_double_click_shows(shell: Shell, event: TrayIconEvent)
    requires
        shell.running(),
        event is DoubleClick,
    ensures
        shell.after_icon_event(event).visible,
        shell.after_icon_event(event).focused,
        shell.after_icon_event(event).after_icon_event(event) == shell.after_icon_event(event),
{
    lemma_show_and_focus(shell);
    lemma_show_and_focus(shell.after_icon_event(event));
}

} // verus!
