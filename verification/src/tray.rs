//! The tray icon: its menu, and the routing of its events.
//!
//! Two streams of events reach the tray: activations of its menu items,
//! which carry an identifier string, and pointer events on the icon. Both
//! are turned into a list of [`WindowAction`]s for the caller to perform on
//! the main window. [`Shell`] says what performing them means.

use vstd::prelude::*;
use crate::ids::{ItemId, lookup};
use crate::menu::MenuItem;

verus! {

/// A view of the UI client that a navigation event asks for.
#[derive(Clone, Copy, Debug, PartialEq, Eq, Structural)]
pub enum Route {
    Library,
    ContinueReading,
    FlashcardReview,
    Settings,
}

impl Route {
    /// The path that the navigation event carries.
    pub open spec fn path(self) -> Seq<char> {
        match self {
            Route::Library => "/library"@,
            Route::ContinueReading => "/reader/continue"@,
            Route::FlashcardReview => "/flashcards/review"@,
            Route::Settings => "/settings"@,
        }
    }

    /// The path that the navigation event carries.
    pub fn as_str(self) -> (r: &'static str)
        ensures
            r@ == self.path(),
    {
        match self {
            Route::Library => "/library",
            Route::ContinueReading => "/reader/continue",
            Route::FlashcardReview => "/flashcards/review",
            Route::Settings => "/settings",
        }
    }
}

/// The name of the signal that carries a navigation path to the UI client.
pub fn navigate_event() -> (r: &'static str)
    ensures
        r@ == "navigate"@,
{
    "navigate"
}

/// One thing to do to the main window or the process.
#[derive(Clone, Copy, Debug, PartialEq, Eq, Structural)]
pub enum WindowAction {
    /// Make the window visible.
    Show,
    /// Give the window input focus.
    Focus,
    /// Hide the window.
    Hide,
    /// Tell the UI client to display a view.
    Navigate(Route),
    /// End the process with the given exit code.
    Exit(i32),
}

/// A button of the pointer.
#[derive(Clone, Copy, Debug, PartialEq, Eq, Structural)]
pub enum MouseButton {
    Left,
    Right,
    Middle,
}

/// Whether a button went down or came up.
#[derive(Clone, Copy, Debug, PartialEq, Eq, Structural)]
pub enum MouseButtonState {
    Up,
    Down,
}

/// A pointer event on the tray icon.
#[derive(Clone, Copy, Debug, PartialEq, Eq, Structural)]
pub enum TrayIconEvent {
    Click { button: MouseButton, state: MouseButtonState },
    DoubleClick { button: MouseButton },
    Enter,
    Move,
    Leave,
}

/// The tray: its tooltip and its menu.
#[derive(Clone, Debug, PartialEq, Eq)]
pub struct Tray {
    pub tooltip: &'static str,
    pub menu: Vec<MenuItem>,
}

/// The items of the tray menu, in order.
pub open spec fn tray_items() -> Seq<MenuItem> {
    seq![
        MenuItem::Action {
            id: ItemId::TrayTitle,
            label: "Read Master",
            accelerator: None,
            enabled: false,
        },
        MenuItem::Separator,
        crate::menu::plain(ItemId::TrayShow, "Show Window"),
        crate::menu::plain(ItemId::TrayHide, "Hide Window"),
        MenuItem::Separator,
        crate::menu::plain(ItemId::TrayLibrary, "Open Library"),
        crate::menu::plain(ItemId::TrayContinue, "Continue Reading"),
        crate::menu::plain(ItemId::TrayFlashcards, "Review Flashcards"),
        MenuItem::Separator,
        crate::menu::plain(ItemId::TraySettings, "Settings"),
        MenuItem::Separator,
        crate::menu::plain(ItemId::TrayQuit, "Quit Read Master"),
    ]
}

/// No identifier is reported from two places of the list.
pub open spec fn items_unique(items: Seq<MenuItem>) -> bool {
    forall|j: int, l: int|
        0 <= j < items.len() && 0 <= l < items.len() && (#[trigger] items[j]).spec_id() is Some
            && items[j].spec_id() == (#[trigger] items[l]).spec_id() ==> j == l
}

/// Whether the tray menu and the menu bar report a common identifier.
pub open spec fn shares_id(items: Seq<MenuItem>, menu: Seq<crate::menu::SubmenuModel>) -> bool {
    exists|l: int|
        0 <= l < items.len() && (#[trigger] items[l]).spec_id() is Some
            && crate::menu::menu_has(menu, items[l].spec_id().unwrap())
}

impl Tray {
    /// Whether no identifier is reported from two places of the tray menu.
    pub fn has_unique_ids(&self) -> (r: bool)
        ensures
            r == items_unique(self.menu@),
    {
        let mut j: usize = 0;
        while j < self.menu.len()
            invariant
                j <= self.menu.len(),
                forall|j2: int, l2: int|
                    0 <= j2 < j && 0 <= l2 < self.menu@.len() && (#[trigger] self.menu@[j2]).spec_id() is Some
                        && self.menu@[j2].spec_id() == (#[trigger] self.menu@[l2]).spec_id() ==> j2
                        == l2,
            decreases self.menu.len() - j,
        {
            match self.menu[j].id() {
                Some(id) => {
                    let mut l: usize = 0;
                    while l < self.menu.len()
                        invariant
                            j < self.menu.len(),
                            l <= self.menu.len(),
                            self.menu@[j as int].spec_id() == Some(id),
                            forall|l2: int|
                                0 <= l2 < l && (#[trigger] self.menu@[l2]).spec_id() == Some(id)
                                    ==> l2 == j,
                        decreases self.menu.len() - l,
                    {
                        if l != j {
                            match self.menu[l].id() {
                                Some(other) => {
                                    if other == id {
                                        return false;
                                    }
                                },
                                None => {},
                            }
                        }
                        l += 1;
                    }
                },
                None => {},
            }
            j += 1;
        }
        true
    }

    /// Whether the tray menu reports an identifier that the menu bar reports
    /// too, so that routing by identifier could confuse the two.
    pub fn shares_id_with(&self, menu: &crate::menu::Menu) -> (r: bool)
        ensures
            r == shares_id(self.menu@, menu@),
    {
        let mut l: usize = 0;
        while l < self.menu.len()
            invariant
                l <= self.menu.len(),
                forall|l2: int|
                    0 <= l2 < l && (#[trigger] self.menu@[l2]).spec_id() is Some
                        ==> !crate::menu::menu_has(menu@, self.menu@[l2].spec_id().unwrap()),
            decreases self.menu.len() - l,
        {
            match self.menu[l].id() {
                Some(id) => {
                    if menu.reports(id) {
                        return true;
                    }
                },
                None => {},
            }
            l += 1;
        }
        false
    }
}

/// The place of the tray menu from which `id` is reported.
pub open spec fn tray_place(id: ItemId) -> Option<int> {
    match id {
        ItemId::TrayTitle => Some(0int),
        ItemId::TrayShow => Some(2int),
        ItemId::TrayHide => Some(3int),
        ItemId::TrayLibrary => Some(5int),
        ItemId::TrayContinue => Some(6int),
        ItemId::TrayFlashcards => Some(7int),
        ItemId::TraySettings => Some(9int),
        ItemId::TrayQuit => Some(11int),
        _ => None,
    }
}

/// Every action of the tray menu stands at its place and carries a tray
/// identifier, and every tray identifier has its item.
pub proof fn lemma_tray_places()
    ensures
        forall|j: int|
            0 <= j < tray_items().len() && (#[trigger] tray_items()[j]).spec_id() is Some
                ==> tray_place(tray_items()[j].spec_id().unwrap()) == Some(j)
                && tray_items()[j].spec_id().unwrap().is_tray(),
        forall|id: ItemId|
            id.is_tray() ==> (#[trigger] tray_place(id)) is Some && tray_items()[tray_place(
                id,
            ).unwrap()].spec_id() == Some(id),
{
}

/// No identifier is reported from two places of the tray menu.
pub proof fn lemma_tray_ids_unique()
    ensures
        items_unique(tray_items()),
{
    lemma_tray_places();
}

/// No identifier is shared between a platform's menu bar and the tray menu,
/// so an activation can be routed by its identifier alone.
pub proof fn lemma_menu_and_tray_disjoint(macos: bool, i: int, j: int, l: int)
    requires
        0 <= l < tray_items().len(),
        crate::menu::id_at(crate::menu::menu_bar(macos), i, j) is Some,
    ensures
        crate::menu::id_at(crate::menu::menu_bar(macos), i, j) != tray_items()[l].spec_id(),
{
    lemma_tray_places();
    crate::menu::lemma_menu_ids_not_tray(macos, i, j);
}

/// The tray menu and a platform's menu bar report no common identifier.
pub proof fn lemma_tray_shares_nothing(macos: bool)
    ensures
        !shares_id(tray_items(), crate::menu::menu_bar(macos)),
{
    let menu = crate::menu::menu_bar(macos);
    assert forall|l: int|
        0 <= l < tray_items().len() && (#[trigger] tray_items()[l]).spec_id() is Some
            implies !crate::menu::menu_has(menu, tray_items()[l].spec_id().unwrap()) by {
        let id = tray_items()[l].spec_id().unwrap();
        if crate::menu::menu_has(menu, id) {
            let (i, j) = choose|i: int, j: int| crate::menu::id_at(menu, i, j) == Some(id);
            lemma_menu_and_tray_disjoint(macos, i, j, l);
        }
    }
}

/// Two different places of the tray menu never report the same identifier
/// string, and no place of a platform's menu bar reports the string of a
/// tray item.
pub proof fn lemma_tray_names_unique(macos: bool, i: int, j: int, k: int, l: int)
    requires
        0 <= k < tray_items().len(),
        0 <= l < tray_items().len(),
        tray_items()[k].spec_id() is Some,
        tray_items()[l].spec_id() is Some,
    ensures
        k != l ==> tray_items()[k].spec_id().unwrap().name() != tray_items()[l].spec_id().unwrap().name(),
        crate::menu::id_at(crate::menu::menu_bar(macos), i, j) is Some ==> crate::menu::id_at(
            crate::menu::menu_bar(macos),
            i,
            j,
        ).unwrap().name() != tray_items()[l].spec_id().unwrap().name(),
{
    lemma_tray_ids_unique();
    crate::ids::lemma_names_distinct(
        tray_items()[k].spec_id().unwrap(),
        tray_items()[l].spec_id().unwrap(),
    );
    if crate::menu::id_at(crate::menu::menu_bar(macos), i, j) is Some {
        lemma_menu_and_tray_disjoint(macos, i, j, l);
        crate::ids::lemma_names_distinct(
            crate::menu::id_at(crate::menu::menu_bar(macos), i, j).unwrap(),
            tray_items()[l].spec_id().unwrap(),
        );
    }
}

/// Builds the tray: the tooltip and the tray menu, in which no identifier
/// occurs twice.
pub fn create_tray() -> (r: Tray)
    ensures
        r.tooltip@ == "Read Master"@,
        r.menu@ == tray_items(),
        items_unique(r.menu@),
{
    let menu = vec![
        MenuItem::Action {
            id: ItemId::TrayTitle,
            label: "Read Master",
            accelerator: None,
            enabled: false,
        },
        MenuItem::Separator,
        MenuItem::new_plain(ItemId::TrayShow, "Show Window"),
        MenuItem::new_plain(ItemId::TrayHide, "Hide Window"),
        MenuItem::Separator,
        MenuItem::new_plain(ItemId::TrayLibrary, "Open Library"),
        MenuItem::new_plain(ItemId::TrayContinue, "Continue Reading"),
        MenuItem::new_plain(ItemId::TrayFlashcards, "Review Flashcards"),
        MenuItem::Separator,
        MenuItem::new_plain(ItemId::TraySettings, "Settings"),
        MenuItem::Separator,
        MenuItem::new_plain(ItemId::TrayQuit, "Quit Read Master"),
    ];
    proof {
        assert(menu@ =~= tray_items());
        lemma_tray_ids_unique();
    }
    Tray { tooltip: "Read Master", menu }
}

/// What the activation of an item asks for. Items of the menu bar, the
/// disabled title and unknown identifiers ask for nothing.
pub open spec fn menu_actions(id: Option<ItemId>) -> Seq<WindowAction> {
    match id {
        Some(ItemId::TrayShow) => seq![WindowAction::Show, WindowAction::Focus],
        Some(ItemId::TrayHide) => seq![WindowAction::Hide],
        Some(ItemId::TrayLibrary) => seq![
            WindowAction::Show,
            WindowAction::Focus,
            WindowAction::Navigate(Route::Library),
        ],
        Some(ItemId::TrayContinue) => seq![
            WindowAction::Show,
            WindowAction::Focus,
            WindowAction::Navigate(Route::ContinueReading),
        ],
        Some(ItemId::TrayFlashcards) => seq![
            WindowAction::Show,
            WindowAction::Focus,
            WindowAction::Navigate(Route::FlashcardReview),
        ],
        Some(ItemId::TraySettings) => seq![
            WindowAction::Show,
            WindowAction::Focus,
            WindowAction::Navigate(Route::Settings),
        ],
        Some(ItemId::TrayQuit) => seq![WindowAction::Exit(0)],
        _ => Seq::<WindowAction>::empty(),
    }
}

/// Whether the event toggles the window: the release of the left button.
pub open spec fn is_toggle(event: TrayIconEvent) -> bool {
    event == (TrayIconEvent::Click { button: MouseButton::Left, state: MouseButtonState::Up })
}

/// What a pointer event on the icon asks for, given what the window said of
/// its visibility (`None` where it could not say).
pub open spec fn icon_actions(event: TrayIconEvent, visible: Option<bool>) -> Seq<WindowAction> {
    if is_toggle(event) {
        if visible == Some(true) {
            seq![WindowAction::Hide]
        } else {
            seq![WindowAction::Show, WindowAction::Focus]
        }
    } else if event is DoubleClick {
        seq![WindowAction::Show, WindowAction::Focus]
    } else {
        Seq::<WindowAction>::empty()
    }
}

/// The route that an item navigates to, for the items that navigate.
pub open spec fn route_of(id: Option<ItemId>) -> Option<Route> {
    match id {
        Some(ItemId::TrayLibrary) => Some(Route::Library),
        Some(ItemId::TrayContinue) => Some(Route::ContinueReading),
        Some(ItemId::TrayFlashcards) => Some(Route::FlashcardReview),
        Some(ItemId::TraySettings) => Some(Route::Settings),
        _ => None,
    }
}

/// An activation navigates at most once, and then as its last action, to
/// the route of its item, after the window was shown and focused; a pointer
/// event on the icon never navigates.
pub proof fn lemma_navigates_at_most_once(
    id: Option<ItemId>,
    event: TrayIconEvent,
    visible: Option<bool>,
    at: int,
)
    ensures
        0 <= at < menu_actions(id).len() && menu_actions(id)[at] is Navigate ==> at == 2
            && menu_actions(id).len() == 3 && menu_actions(id)[0] == WindowAction::Show
            && menu_actions(id)[1] == WindowAction::Focus && Some(menu_actions(id)[at]->Navigate_0)
            == route_of(id),
        route_of(id) is Some ==> menu_actions(id).len() == 3 && menu_actions(id)[2]
            == WindowAction::Navigate(route_of(id).unwrap()),
        0 <= at < icon_actions(event, visible).len() ==> !(icon_actions(event, visible)[at]
            is Navigate),
{
}

fn show_and_focus() -> (r: Vec<WindowAction>)
    ensures
        r@ == seq![WindowAction::Show, WindowAction::Focus],
{
    vec![WindowAction::Show, WindowAction::Focus]
}

fn show_and_navigate(route: Route) -> (r: Vec<WindowAction>)
    ensures
        r@ == seq![WindowAction::Show, WindowAction::Focus, WindowAction::Navigate(route)],
{
    vec![WindowAction::Show, WindowAction::Focus, WindowAction::Navigate(route)]
}

/// Routes the activation of a menu item by its identifier string.
///
/// The navigating items show and focus the window and then navigate; the
/// quit item ends the process with code 0; any other string asks for
/// nothing.
pub fn on_menu_event(id: &str) -> (r: Vec<WindowAction>)
    ensures
        r@ == menu_actions(lookup(id@)),
{
    match ItemId::parse(id) {
        Some(ItemId::TrayShow) => show_and_focus(),
        Some(ItemId::TrayHide) => vec![WindowAction::Hide],
        Some(ItemId::TrayLibrary) => show_and_navigate(Route::Library),
        Some(ItemId::TrayContinue) => show_and_navigate(Route::ContinueReading),
        Some(ItemId::TrayFlashcards) => show_and_navigate(Route::FlashcardReview),
        Some(ItemId::TraySettings) => show_and_navigate(Route::Settings),
        Some(ItemId::TrayQuit) => vec![WindowAction::Exit(0)],
        _ => Vec::new(),
    }
}

/// Whether routing the event needs the window's visibility.
pub fn needs_visibility(event: TrayIconEvent) -> (r: bool)
    ensures
        r == is_toggle(event),
{
    match event {
        TrayIconEvent::Click { button: MouseButton::Left, state: MouseButtonState::Up } => true,
        _ => false,
    }
}

/// Routes a pointer event on the tray icon.
///
/// The release of the left button hides a window that reported itself
/// visible and otherwise shows and focuses it; a double click shows and
/// focuses it; every other event asks for nothing.
pub fn on_tray_icon_event(event: TrayIconEvent, visible: Option<bool>) -> (r: Vec<WindowAction>)
    ensures
        r@ == icon_actions(event, visible),
{
    match event {
        TrayIconEvent::Click { button: MouseButton::Left, state: MouseButtonState::Up } => {
            match visible {
                Some(true) => vec![WindowAction::Hide],
                _ => show_and_focus(),
            }
        },
        TrayIconEvent::DoubleClick { .. } => show_and_focus(),
        _ => Vec::new(),
    }
}

} // verus!
