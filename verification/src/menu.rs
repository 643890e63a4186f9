//! The menu bar as a declarative description.
//!
//! A menu is a list of submenus, each a list of items. The description is
//! built once for a platform and handed to whoever creates the native menu.
//! Accelerators are stored without the platform's modifier key; the key is
//! chosen when the accelerator is rendered.

use vstd::prelude::*;
use crate::ids::ItemId;
use crate::platform::Platform;

verus! {

/// A system-provided item whose behaviour the operating system supplies.
#[derive(Clone, Copy, Debug, PartialEq, Eq, Structural)]
pub enum PredefinedKind {
    About,
    Services,
    Hide,
    HideOthers,
    ShowAll,
    Quit,
    CloseWindow,
    Undo,
    Redo,
    Cut,
    Copy,
    Paste,
    SelectAll,
    Fullscreen,
    Minimize,
    Maximize,
}

/// A key combination, with the platform's main modifier left abstract.
#[derive(Clone, Copy, Debug, PartialEq, Eq)]
pub struct Accelerator {
    /// Whether the platform's main modifier (Cmd or Ctrl) is held.
    pub primary: bool,
    /// Whether Shift is held.
    pub shift: bool,
    /// The key itself.
    pub key: &'static str,
}

impl Accelerator {
    /// The main modifier of a platform, with its joining sign.
    pub open spec fn modifier(macos: bool) -> Seq<char> {
        if macos {
            "Cmd+"@
        } else {
            "Ctrl+"@
        }
    }

    /// The accelerator as the native menu expects it.
    pub open spec fn text(self, macos: bool) -> Seq<char> {
        (if self.primary {
            Self::modifier(macos)
        } else {
            Seq::<char>::empty()
        }) + (if self.shift {
            "Shift+"@
        } else {
            Seq::<char>::empty()
        }) + self.key@
    }

    /// Renders the accelerator for a platform.
    pub fn render(&self, platform: Platform) -> (r: String)
        ensures
            r@ == self.text(platform == Platform::MacOs),
    {
        let mut out = String::new();
        if self.primary {
            if platform.is_macos() {
                out.append("Cmd+");
            } else {
                out.append("Ctrl+");
            }
        }
        if self.shift {
            out.append("Shift+");
        }
        out.append(self.key);
        assert(out@ =~= self.text(platform == Platform::MacOs));
        out
    }
}

/// The platforms differ in the main modifier alone: an accelerator that
/// holds it starts with `Cmd+` on macOS and with `Ctrl+` elsewhere and goes
/// on alike, and one that does not hold it reads the same everywhere.
pub proof fn lemma_modifier_convention(keys: Accelerator)
    ensures
        keys.primary ==> exists|rest: Seq<char>|
            keys.text(true) == "Cmd+"@ + rest && keys.text(false) == "Ctrl+"@ + rest,
        !keys.primary ==> keys.text(true) == keys.text(false),
{
    let rest = (if keys.shift {
        "Shift+"@
    } else {
        Seq::<char>::empty()
    }) + keys.key@;
    if keys.primary {
        assert(keys.text(true) =~= "Cmd+"@ + rest);
        assert(keys.text(false) =~= "Ctrl+"@ + rest);
    }
}

/// One entry of a menu.
#[derive(Clone, Copy, Debug, PartialEq, Eq)]
pub enum MenuItem {
    /// A leaf that reports its identifier when activated.
    Action { id: ItemId, label: &'static str, accelerator: Option<Accelerator>, enabled: bool },
    /// A dividing line.
    Separator,
    /// A system-provided item, with an optional label of its own.
    Predefined { kind: PredefinedKind, label: Option<&'static str> },
}

/// An enabled action without accelerator.
pub open spec fn plain(id: ItemId, label: &'static str) -> MenuItem {
    MenuItem::Action { id, label, accelerator: None, enabled: true }
}

/// An enabled action reached by `key` alone.
pub open spec fn keyed(id: ItemId, label: &'static str, key: &'static str) -> MenuItem {
    MenuItem::Action {
        id,
        label,
        accelerator: Some(Accelerator { primary: false, shift: false, key }),
        enabled: true,
    }
}

/// An enabled action reached by the main modifier and `key`.
pub open spec fn primary(id: ItemId, label: &'static str, key: &'static str) -> MenuItem {
    MenuItem::Action {
        id,
        label,
        accelerator: Some(Accelerator { primary: true, shift: false, key }),
        enabled: true,
    }
}

/// An enabled action reached by the main modifier, Shift and `key`.
pub open spec fn shifted(id: ItemId, label: &'static str, key: &'static str) -> MenuItem {
    MenuItem::Action {
        id,
        label,
        accelerator: Some(Accelerator { primary: true, shift: true, key }),
        enabled: true,
    }
}

/// A system-provided item under its default label.
pub open spec fn system(kind: PredefinedKind) -> MenuItem {
    MenuItem::Predefined { kind, label: None }
}

impl MenuItem {
    /// The identifier the item reports, if it is an action.
    pub open spec fn spec_id(self) -> Option<ItemId> {
        match self {
            MenuItem::Action { id, .. } => Some(id),
            _ => None,
        }
    }

    /// The identifier the item reports, if it is an action.
    pub fn id(&self) -> (r: Option<ItemId>)
        ensures
            r == self.spec_id(),
    {
        match self {
            MenuItem::Action { id, .. } => Some(*id),
            _ => None,
        }
    }

    /// Builds an enabled action without accelerator.
    pub fn new_plain(id: ItemId, label: &'static str) -> (r: MenuItem)
        ensures
            r == plain(id, label),
    {
        MenuItem::Action { id, label, accelerator: None, enabled: true }
    }

    /// Builds an enabled action reached by `key` alone.
    pub fn new_keyed(id: ItemId, label: &'static str, key: &'static str) -> (r: MenuItem)
        ensures
            r == keyed(id, label, key),
    {
        MenuItem::Action {
            id,
            label,
            accelerator: Some(Accelerator { primary: false, shift: false, key }),
            enabled: true,
        }
    }

    /// Builds an enabled action reached by the main modifier and `key`.
    pub fn new_primary(id: ItemId, label: &'static str, key: &'static str) -> (r: MenuItem)
        ensures
            r == primary(id, label, key),
    {
        MenuItem::Action {
            id,
            label,
            accelerator: Some(Accelerator { primary: true, shift: false, key }),
            enabled: true,
        }
    }

    /// Builds an enabled action reached by the main modifier, Shift and `key`.
    pub fn new_shifted(id: ItemId, label: &'static str, key: &'static str) -> (r: MenuItem)
        ensures
            r == shifted(id, label, key),
    {
        MenuItem::Action {
            id,
            label,
            accelerator: Some(Accelerator { primary: true, shift: true, key }),
            enabled: true,
        }
    }

    /// Builds a system-provided item under its default label.
    pub fn new_system(kind: PredefinedKind) -> (r: MenuItem)
        ensures
            r == system(kind),
    {
        MenuItem::Predefined { kind, label: None }
    }
}

/// What a submenu is: its title and its items in order.
pub struct SubmenuModel {
    pub title: Seq<char>,
    pub items: Seq<MenuItem>,
}

/// A titled container of items.
#[derive(Clone, Debug, PartialEq, Eq)]
pub struct Submenu {
    pub title: &'static str,
    pub items: Vec<MenuItem>,
}

impl View for Submenu {
    type V = SubmenuModel;

    open spec fn view(&self) -> SubmenuModel {
        SubmenuModel { title: self.title@, items: self.items@ }
    }
}

/// The menu bar: its submenus in order.
#[derive(Clone, Debug, PartialEq, Eq)]
pub struct Menu {
    pub submenus: Vec<Submenu>,
}

impl View for Menu {
    type V = Seq<SubmenuModel>;

    open spec fn view(&self) -> Seq<SubmenuModel> {
        self.submenus@.map_values(|s: Submenu| s@)
    }
}

/// The identifier reported from place `j` of submenu `i`, if an action
/// stands there.
pub open spec fn id_at(menu: Seq<SubmenuModel>, i: int, j: int) -> Option<ItemId> {
    if 0 <= i < menu.len() && 0 <= j < menu[i].items.len() {
        menu[i].items[j].spec_id()
    } else {
        None
    }
}

/// No identifier is reported from two places of the menu.
pub open spec fn ids_unique(menu: Seq<SubmenuModel>) -> bool {
    forall|i: int, j: int, k: int, l: int|
        #![trigger id_at(menu, i, j), id_at(menu, k, l)]
        id_at(menu, i, j) is Some && id_at(menu, i, j) == id_at(menu, k, l) ==> i == k && j == l
}

/// Whether some place of the menu reports `id`.
pub open spec fn menu_has(menu: Seq<SubmenuModel>, id: ItemId) -> bool {
    exists|i: int, j: int| id_at(menu, i, j) == Some(id)
}

/// Whether a place of the menu other than `(i, j)` reports `id`.
pub open spec fn reported_elsewhere(menu: Seq<SubmenuModel>, id: ItemId, i: int, j: int) -> bool {
    exists|k: int, l: int| #[trigger] id_at(menu, k, l) == Some(id) && (k != i || l != j)
}

impl Menu {
    /// The identifier reported from place `j` of submenu `i`.
    pub fn id_of(&self, i: usize, j: usize) -> (r: Option<ItemId>)
        ensures
            r == id_at(self@, i as int, j as int),
    {
        if i < self.submenus.len() && j < self.submenus[i].items.len() {
            self.submenus[i].items[j].id()
        } else {
            None
        }
    }

    /// Whether a place other than `(i, j)` reports `id`.
    pub fn reports_elsewhere(&self, id: ItemId, i: usize, j: usize) -> (r: bool)
        ensures
            r == reported_elsewhere(self@, id, i as int, j as int),
    {
        let mut k: usize = 0;
        while k < self.submenus.len()
            invariant
                k <= self.submenus.len(),
                forall|k2: int, l2: int|
                    0 <= k2 < k ==> !(#[trigger] id_at(self@, k2, l2) == Some(id) && (k2 != i || l2
                        != j)),
            decreases self.submenus.len() - k,
        {
            let mut l: usize = 0;
            while l < self.submenus[k].items.len()
                invariant
                    k < self.submenus.len(),
                    l <= self.submenus[k as int].items.len(),
                    forall|k2: int, l2: int|
                        0 <= k2 < k ==> !(#[trigger] id_at(self@, k2, l2) == Some(id) && (k2 != i
                            || l2 != j)),
                    forall|l2: int|
                        0 <= l2 < l ==> !(#[trigger] id_at(self@, k as int, l2) == Some(id) && (k
                            != i || l2 != j)),
                decreases self.submenus[k as int].items.len() - l,
            {
                if k != i || l != j {
                    match self.id_of(k, l) {
                        Some(other) => {
                            if other == id {
                                assert(id_at(self@, k as int, l as int) == Some(id));
                                return true;
                            }
                        },
                        None => {},
                    }
                }
                l += 1;
            }
            k += 1;
        }
        false
    }

    /// Whether some place of the menu reports `id`.
    pub fn reports(&self, id: ItemId) -> (r: bool)
        ensures
            r == menu_has(self@, id),
    {
        let n: usize = self.submenus.len();
        let found = self.reports_elsewhere(id, n, 0);
        proof {
            if found {
                let (k, l) = choose|k: int, l: int| #[trigger]
                    id_at(self@, k, l) == Some(id) && (k != n || l != 0);
                assert(id_at(self@, k, l) == Some(id));
            }
            if menu_has(self@, id) {
                let (k, l) = choose|k: int, l: int| id_at(self@, k, l) == Some(id);
                assert(id_at(self@, k, l) == Some(id) && (k != n || l != 0));
            }
        }
        found
    }

    /// Whether no identifier is reported from two places of the menu: the
    /// test to make before a menu that was put together by hand is handed to
    /// the system.
    pub fn has_unique_ids(&self) -> (r: bool)
        ensures
            r == ids_unique(self@),
    {
        let mut i: usize = 0;
        while i < self.submenus.len()
            invariant
                i <= self.submenus.len(),
                forall|i2: int, j2: int, k: int, l: int|
                    #![trigger id_at(self@, i2, j2), id_at(self@, k, l)]
                    0 <= i2 < i && id_at(self@, i2, j2) is Some && id_at(self@, i2, j2) == id_at(
                        self@,
                        k,
                        l,
                    ) ==> i2 == k && j2 == l,
            decreases self.submenus.len() - i,
        {
            let mut j: usize = 0;
            while j < self.submenus[i].items.len()
                invariant
                    i < self.submenus.len(),
                    j <= self.submenus[i as int].items.len(),
                    forall|i2: int, j2: int, k: int, l: int|
                        #![trigger id_at(self@, i2, j2), id_at(self@, k, l)]
                        0 <= i2 < i && id_at(self@, i2, j2) is Some && id_at(self@, i2, j2)
                            == id_at(self@, k, l) ==> i2 == k && j2 == l,
                    forall|j2: int, k: int, l: int|
                        #![trigger id_at(self@, i as int, j2), id_at(self@, k, l)]
                        0 <= j2 < j && id_at(self@, i as int, j2) is Some && id_at(
                            self@,
                            i as int,
                            j2,
                        ) == id_at(self@, k, l) ==> i == k && j2 == l,
                decreases self.submenus[i as int].items.len() - j,
            {
                match self.id_of(i, j) {
                    Some(id) => {
                        if self.reports_elsewhere(id, i, j) {
                            proof {
                                let (k, l) = choose|k: int, l: int| #[trigger]
                                    id_at(self@, k, l) == Some(id) && (k != i || l != j);
                                assert(id_at(self@, i as int, j as int) == id_at(self@, k, l));
                            }
                            return false;
                        }
                    },
                    None => {},
                }
                j += 1;
            }
            i += 1;
        }
        true
    }
}

/// The application submenu, present on macOS only.
pub open spec fn app_model() -> SubmenuModel {
    SubmenuModel {
        title: "Read Master"@,
        items: seq![
            MenuItem::Predefined { kind: PredefinedKind::About, label: Some("About Read Master") },
            MenuItem::Separator,
            plain(ItemId::CheckUpdates, "Check for Updates..."),
            MenuItem::Separator,
            primary(ItemId::Preferences, "Preferences...", ","),
            MenuItem::Separator,
            system(PredefinedKind::Services),
            MenuItem::Separator,
            system(PredefinedKind::Hide),
            system(PredefinedKind::HideOthers),
            system(PredefinedKind::ShowAll),
            MenuItem::Separator,
            system(PredefinedKind::Quit),
        ],
    }
}

/// The File submenu. Outside macOS it also holds the preferences and the
/// quit item.
pub open spec fn file_model(macos: bool) -> SubmenuModel {
    SubmenuModel {
        title: "File"@,
        items: if macos {
            seq![
                primary(ItemId::ImportBook, "Import Book...", "O"),
                MenuItem::Separator,
                shifted(ItemId::NewWindow, "New Window", "N"),
                MenuItem::Separator,
                system(PredefinedKind::CloseWindow),
            ]
        } else {
            seq![
                primary(ItemId::ImportBook, "Import Book...", "O"),
                MenuItem::Separator,
                shifted(ItemId::NewWindow, "New Window", "N"),
                MenuItem::Separator,
                primary(ItemId::Preferences, "Preferences...", ","),
                MenuItem::Separator,
                system(PredefinedKind::Quit),
            ]
        },
    }
}

/// The Edit submenu: system items only.
pub open spec fn edit_model(macos: bool) -> SubmenuModel {
    SubmenuModel {
        title: "Edit"@,
        items: if macos {
            seq![
                system(PredefinedKind::Undo),
                system(PredefinedKind::Redo),
                MenuItem::Separator,
                system(PredefinedKind::Cut),
                system(PredefinedKind::Copy),
                system(PredefinedKind::Paste),
                system(PredefinedKind::SelectAll),
            ]
        } else {
            seq![
                system(PredefinedKind::Undo),
                system(PredefinedKind::Redo),
                MenuItem::Separator,
                system(PredefinedKind::Cut),
                system(PredefinedKind::Copy),
                system(PredefinedKind::Paste),
                MenuItem::Separator,
                system(PredefinedKind::SelectAll),
            ]
        },
    }
}

/// The View submenu.
pub open spec fn view_model() -> SubmenuModel {
    SubmenuModel {
        title: "View"@,
        items: seq![
            primary(ItemId::Library, "Library", "1"),
            primary(ItemId::Flashcards, "Flashcards", "2"),
            primary(ItemId::Social, "Social", "3"),
            MenuItem::Separator,
            system(PredefinedKind::Fullscreen),
        ],
    }
}

/// The Reading submenu.
pub open spec fn reading_model() -> SubmenuModel {
    SubmenuModel {
        title: "Reading"@,
        items: seq![
            keyed(ItemId::PrevPage, "Previous Page", "Left"),
            keyed(ItemId::NextPage, "Next Page", "Right"),
            MenuItem::Separator,
            primary(ItemId::ToggleTts, "Toggle Text-to-Speech", "T"),
            primary(ItemId::AddBookmark, "Add Bookmark", "D"),
            primary(ItemId::AddNote, "Add Note", "N"),
            MenuItem::Separator,
            primary(ItemId::SearchBook, "Search in Book...", "F"),
            shifted(ItemId::TableOfContents, "Table of Contents", "T"),
        ],
    }
}

/// The Window submenu, present on macOS only.
pub open spec fn window_model() -> SubmenuModel {
    SubmenuModel {
        title: "Window"@,
        items: seq![
            system(PredefinedKind::Minimize),
            system(PredefinedKind::Maximize),
            MenuItem::Separator,
            system(PredefinedKind::CloseWindow),
        ],
    }
}

/// The Help submenu. Outside macOS it also holds the update check and the
/// about item.
pub open spec fn help_model(macos: bool) -> SubmenuModel {
    SubmenuModel {
        title: "Help"@,
        items: if macos {
            seq![
                plain(ItemId::Documentation, "Documentation"),
                primary(ItemId::Shortcuts, "Keyboard Shortcuts", "/"),
                MenuItem::Separator,
                plain(ItemId::ReportIssue, "Report an Issue..."),
            ]
        } else {
            seq![
                plain(ItemId::Documentation, "Documentation"),
                primary(ItemId::Shortcuts, "Keyboard Shortcuts", "/"),
                MenuItem::Separator,
                plain(ItemId::ReportIssue, "Report an Issue..."),
                MenuItem::Separator,
                plain(ItemId::CheckUpdates, "Check for Updates..."),
                MenuItem::Separator,
                MenuItem::Predefined { kind: PredefinedKind::About, label: Some("About Read Master") },
            ]
        },
    }
}

/// The whole menu bar of a platform.
pub open spec fn menu_bar(macos: bool) -> Seq<SubmenuModel> {
    if macos {
        seq![
            app_model(),
            file_model(true),
            edit_model(true),
            view_model(),
            reading_model(),
            window_model(),
            help_model(true),
        ]
    } else {
        seq![
            file_model(false),
            edit_model(false),
            view_model(),
            reading_model(),
            help_model(false),
        ]
    }
}

fn separator() -> (r: MenuItem)
    ensures
        r == MenuItem::Separator,
{
    MenuItem::Separator
}

fn about() -> (r: MenuItem)
    ensures
        r == (MenuItem::Predefined { kind: PredefinedKind::About, label: Some("About Read Master") }),
{
    MenuItem::Predefined { kind: PredefinedKind::About, label: Some("About Read Master") }
}

fn app_menu() -> (r: Submenu)
    ensures
        r@ == app_model(),
{
    let items = vec![
        about(),
        separator(),
        MenuItem::new_plain(ItemId::CheckUpdates, "Check for Updates..."),
        separator(),
        MenuItem::new_primary(ItemId::Preferences, "Preferences...", ","),
        separator(),
        MenuItem::new_system(PredefinedKind::Services),
        separator(),
        MenuItem::new_system(PredefinedKind::Hide),
        MenuItem::new_system(PredefinedKind::HideOthers),
        MenuItem::new_system(PredefinedKind::ShowAll),
        separator(),
        MenuItem::new_system(PredefinedKind::Quit),
    ];
    assert(items@ =~= app_model().items);
    Submenu { title: "Read Master", items }
}

fn file_menu(macos: bool) -> (r: Submenu)
    ensures
        r@ == file_model(macos),
{
    let mut items = vec![
        MenuItem::new_primary(ItemId::ImportBook, "Import Book...", "O"),
        separator(),
        MenuItem::new_shifted(ItemId::NewWindow, "New Window", "N"),
        separator(),
    ];
    if macos {
        items.push(MenuItem::new_system(PredefinedKind::CloseWindow));
    } else {
        items.push(MenuItem::new_primary(ItemId::Preferences, "Preferences...", ","));
        items.push(separator());
        items.push(MenuItem::new_system(PredefinedKind::Quit));
    }
    assert(items@ =~= file_model(macos).items);
    Submenu { title: "File", items }
}

fn edit_menu(macos: bool) -> (r: Submenu)
    ensures
        r@ == edit_model(macos),
{
    let mut items = vec![
        MenuItem::new_system(PredefinedKind::Undo),
        MenuItem::new_system(PredefinedKind::Redo),
        separator(),
        MenuItem::new_system(PredefinedKind::Cut),
        MenuItem::new_system(PredefinedKind::Copy),
        MenuItem::new_system(PredefinedKind::Paste),
    ];
    if !macos {
        items.push(separator());
    }
    items.push(MenuItem::new_system(PredefinedKind::SelectAll));
    assert(items@ =~= edit_model(macos).items);
    Submenu { title: "Edit", items }
}

fn view_menu() -> (r: Submenu)
    ensures
        r@ == view_model(),
{
    let items = vec![
        MenuItem::new_primary(ItemId::Library, "Library", "1"),
        MenuItem::new_primary(ItemId::Flashcards, "Flashcards", "2"),
        MenuItem::new_primary(ItemId::Social, "Social", "3"),
        separator(),
        MenuItem::new_system(PredefinedKind::Fullscreen),
    ];
    assert(items@ =~= view_model().items);
    Submenu { title: "View", items }
}

fn reading_menu() -> (r: Submenu)
    ensures
        r@ == reading_model(),
{
    let items = vec![
        MenuItem::new_keyed(ItemId::PrevPage, "Previous Page", "Left"),
        MenuItem::new_keyed(ItemId::NextPage, "Next Page", "Right"),
        separator(),
        MenuItem::new_primary(ItemId::ToggleTts, "Toggle Text-to-Speech", "T"),
        MenuItem::new_primary(ItemId::AddBookmark, "Add Bookmark", "D"),
        MenuItem::new_primary(ItemId::AddNote, "Add Note", "N"),
        separator(),
        MenuItem::new_primary(ItemId::SearchBook, "Search in Book...", "F"),
        MenuItem::new_shifted(ItemId::TableOfContents, "Table of Contents", "T"),
    ];
    assert(items@ =~= reading_model().items);
    Submenu { title: "Reading", items }
}

fn window_menu() -> (r: Submenu)
    ensures
        r@ == window_model(),
{
    let items = vec![
        MenuItem::new_system(PredefinedKind::Minimize),
        MenuItem::new_system(PredefinedKind::Maximize),
        separator(),
        MenuItem::new_system(PredefinedKind::CloseWindow),
    ];
    assert(items@ =~= window_model().items);
    Submenu { title: "Window", items }
}

fn help_menu(macos: bool) -> (r: Submenu)
    ensures
        r@ == help_model(macos),
{
    let mut items = vec![
        MenuItem::new_plain(ItemId::Documentation, "Documentation"),
        MenuItem::new_primary(ItemId::Shortcuts, "Keyboard Shortcuts", "/"),
        separator(),
        MenuItem::new_plain(ItemId::ReportIssue, "Report an Issue..."),
    ];
    if !macos {
        items.push(separator());
        items.push(MenuItem::new_plain(ItemId::CheckUpdates, "Check for Updates..."));
        items.push(separator());
        items.push(about());
    }
    assert(items@ =~= help_model(macos).items);
    Submenu { title: "Help", items }
}

/// Builds the menu bar of a platform.
///
/// macOS gets the application submenu, which holds the update check and the
/// preferences, and a Window submenu; elsewhere those two actions stand under
/// Help and File. No identifier occurs twice in the result.
pub fn create_menu(platform: Platform) -> (r: Menu)
    ensures
        r@ == menu_bar(platform == Platform::MacOs),
        ids_unique(r@),
{
    let macos = platform.is_macos();
    let mut submenus: Vec<Submenu> = Vec::new();
    if macos {
        submenus.push(app_menu());
    }
    submenus.push(file_menu(macos));
    submenus.push(edit_menu(macos));
    submenus.push(view_menu());
    submenus.push(reading_menu());
    if macos {
        submenus.push(window_menu());
    }
    submenus.push(help_menu(macos));
    let menu = Menu { submenus };
    proof {
        assert(menu@ =~= menu_bar(macos));
        lemma_menu_ids_unique(macos);
    }
    menu
}

/// The place of the menu bar from which `id` is reported: the submenu and
/// the place in it. `None` for what the menu bar does not hold.
pub open spec fn place(macos: bool, id: ItemId) -> Option<(int, int)> {
    let shift: int = if macos { 1 } else { 0 };
    match id {
        ItemId::CheckUpdates => if macos { Some((0int, 2int)) } else { Some((4int, 5int)) },
        ItemId::Preferences => Some((0int, 4int)),
        ItemId::ImportBook => Some((shift, 0int)),
        ItemId::NewWindow => Some((shift, 2int)),
        ItemId::Library => Some((shift + 2, 0int)),
        ItemId::Flashcards => Some((shift + 2, 1int)),
        ItemId::Social => Some((shift + 2, 2int)),
        ItemId::PrevPage => Some((shift + 3, 0int)),
        ItemId::NextPage => Some((shift + 3, 1int)),
        ItemId::ToggleTts => Some((shift + 3, 3int)),
        ItemId::AddBookmark => Some((shift + 3, 4int)),
        ItemId::AddNote => Some((shift + 3, 5int)),
        ItemId::SearchBook => Some((shift + 3, 7int)),
        ItemId::TableOfContents => Some((shift + 3, 8int)),
        ItemId::Documentation => if macos { Some((6int, 0int)) } else { Some((4int, 0int)) },
        ItemId::Shortcuts => if macos { Some((6int, 1int)) } else { Some((4int, 1int)) },
        ItemId::ReportIssue => if macos { Some((6int, 3int)) } else { Some((4int, 3int)) },
        _ => None,
    }
}

/// Every action of the menu bar stands at its place, and only there.
pub proof fn lemma_places(macos: bool)
    ensures
        forall|i: int, j: int| #[trigger]
            id_at(menu_bar(macos), i, j) is Some ==> place(macos, id_at(menu_bar(macos), i, j).unwrap())
                == Some((i, j)),
        forall|id: ItemId| #[trigger]
            place(macos, id) is Some ==> id_at(
                menu_bar(macos),
                place(macos, id).unwrap().0,
                place(macos, id).unwrap().1,
            ) == Some(id),
{
    let menu = menu_bar(macos);
    assert forall|i: int, j: int| #[trigger] id_at(menu, i, j) is Some implies place(
        macos,
        id_at(menu, i, j).unwrap(),
    ) == Some((i, j)) by {
        lemma_place_of(macos, i, j);
    }
}

proof fn lemma_place_of(macos: bool, i: int, j: int)
    requires
        id_at(menu_bar(macos), i, j) is Some,
    ensures
        place(macos, id_at(menu_bar(macos), i, j).unwrap()) == Some((i, j)),
{
}

/// No identifier is reported from two places of a platform's menu bar.
pub proof fn lemma_menu_ids_unique(macos: bool)
    ensures
        ids_unique(menu_bar(macos)),
{
    lemma_places(macos);
}

/// The menu bar reports no identifier of the tray menu.
pub proof fn lemma_menu_ids_not_tray(macos: bool, i: int, j: int)
    requires
        id_at(menu_bar(macos), i, j) is Some,
    ensures
        !id_at(menu_bar(macos), i, j).unwrap().is_tray(),
{
    lemma_places(macos);
}

/// Two different places of a platform's menu bar never report the same
/// identifier string.
pub proof fn lemma_menu_names_unique(macos: bool, i: int, j: int, k: int, l: int)
    requires
        id_at(menu_bar(macos), i, j) is Some,
        id_at(menu_bar(macos), k, l) is Some,
        i != k || j != l,
    ensures
        id_at(menu_bar(macos), i, j).unwrap().name() != id_at(menu_bar(macos), k, l).unwrap().name(),
{
    lemma_menu_ids_unique(macos);
    crate::ids::lemma_names_distinct(
        id_at(menu_bar(macos), i, j).unwrap(),
        id_at(menu_bar(macos), k, l).unwrap(),
    );
}

/// Both platforms offer the same actions: an identifier that one menu bar
/// reports is reported by the other, from an item with the same label,
/// accelerator and enabled flag.
pub proof fn lemma_same_actions(id: ItemId)
    ensures
        place(true, id) is Some <==> place(false, id) is Some,
        place(true, id) is Some ==> menu_bar(true)[place(true, id).unwrap().0].items[place(
            true,
            id,
        ).unwrap().1] == menu_bar(false)[place(false, id).unwrap().0].items[place(
            false,
            id,
        ).unwrap().1],
{
}

/// Apart from the update check and the preferences, an action stands under
/// the same submenu title on both platforms.
pub proof fn lemma_same_submenu(id: ItemId)
    requires
        place(true, id) is Some,
        id != ItemId::CheckUpdates,
        id != ItemId::Preferences,
    ensures
        menu_bar(true)[place(true, id).unwrap().0].title == menu_bar(false)[place(
            false,
            id,
        ).unwrap().0].title,
{
}

} // verus!
