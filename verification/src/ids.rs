//! The closed vocabulary of identifiers that menu and tray items carry.
//!
//! Native events arrive with an identifier string. Every actionable item is
//! named by one variant of [`ItemId`], so two items can only share a string if
//! they share a variant, and the names of distinct variants are proved
//! distinct.

use vstd::prelude::*;

verus! {

/// One actionable item of the menu bar or of the tray menu.
#[derive(Clone, Copy, Debug, PartialEq, Eq, Structural)]
pub enum ItemId {
    CheckUpdates,
    Preferences,
    ImportBook,
    NewWindow,
    Library,
    Flashcards,
    Social,
    PrevPage,
    NextPage,
    ToggleTts,
    AddBookmark,
    AddNote,
    SearchBook,
    TableOfContents,
    Documentation,
    Shortcuts,
    ReportIssue,
    TrayTitle,
    TrayShow,
    TrayHide,
    TrayLibrary,
    TrayContinue,
    TrayFlashcards,
    TraySettings,
    TrayQuit,
}

impl ItemId {
    /// The identifier string under which the item is registered.
    pub open spec fn name(self) -> Seq<char> {
        match self {
            ItemId::CheckUpdates => "check_updates"@,
            ItemId::Preferences => "preferences"@,
            ItemId::ImportBook => "import_book"@,
            ItemId::NewWindow => "new_window"@,
            ItemId::Library => "library"@,
            ItemId::Flashcards => "flashcards"@,
            ItemId::Social => "social"@,
            ItemId::PrevPage => "prev_page"@,
            ItemId::NextPage => "next_page"@,
            ItemId::ToggleTts => "toggle_tts"@,
            ItemId::AddBookmark => "add_bookmark"@,
            ItemId::AddNote => "add_note"@,
            ItemId::SearchBook => "search_book"@,
            ItemId::TableOfContents => "table_of_contents"@,
            ItemId::Documentation => "documentation"@,
            ItemId::Shortcuts => "shortcuts"@,
            ItemId::ReportIssue => "report_issue"@,
            ItemId::TrayTitle => "tray_title"@,
            ItemId::TrayShow => "tray_show"@,
            ItemId::TrayHide => "tray_hide"@,
            ItemId::TrayLibrary => "tray_library"@,
            ItemId::TrayContinue => "tray_continue"@,
            ItemId::TrayFlashcards => "tray_flashcards"@,
            ItemId::TraySettings => "tray_settings"@,
            ItemId::TrayQuit => "tray_quit"@,
        }
    }

    /// Whether the item belongs to the tray menu rather than the menu bar.
    pub open spec fn is_tray(self) -> bool {
        self == ItemId::TrayTitle || self == ItemId::TrayShow || self == ItemId::TrayHide
            || self == ItemId::TrayLibrary || self == ItemId::TrayContinue
            || self == ItemId::TrayFlashcards || self == ItemId::TraySettings
            || self == ItemId::TrayQuit
    }

    /// The identifier string of the item.
    pub fn as_str(self) -> (r: &'static str)
        ensures
            r@ == self.name(),
    {
        match self {
            ItemId::CheckUpdates => "check_updates",
            ItemId::Preferences => "preferences",
            ItemId::ImportBook => "import_book",
            ItemId::NewWindow => "new_window",
            ItemId::Library => "library",
            ItemId::Flashcards => "flashcards",
            ItemId::Social => "social",
            ItemId::PrevPage => "prev_page",
            ItemId::NextPage => "next_page",
            ItemId::ToggleTts => "toggle_tts",
            ItemId::AddBookmark => "add_bookmark",
            ItemId::AddNote => "add_note",
            ItemId::SearchBook => "search_book",
            ItemId::TableOfContents => "table_of_contents",
            ItemId::Documentation => "documentation",
            ItemId::Shortcuts => "shortcuts",
            ItemId::ReportIssue => "report_issue",
            ItemId::TrayTitle => "tray_title",
            ItemId::TrayShow => "tray_show",
            ItemId::TrayHide => "tray_hide",
            ItemId::TrayLibrary => "tray_library",
            ItemId::TrayContinue => "tray_continue",
            ItemId::TrayFlashcards => "tray_flashcards",
            ItemId::TraySettings => "tray_settings",
            ItemId::TrayQuit => "tray_quit",
        }
    }

    /// Whether the item belongs to the tray menu.
    pub fn in_tray(self) -> (r: bool)
        ensures
            r == self.is_tray(),
    {
        match self {
            ItemId::TrayTitle | ItemId::TrayShow | ItemId::TrayHide | ItemId::TrayLibrary
            | ItemId::TrayContinue | ItemId::TrayFlashcards | ItemId::TraySettings
            | ItemId::TrayQuit => true,
            _ => false,
        }
    }

    /// Looks an identifier string up in the vocabulary.
    ///
    /// Returns the item registered under `text`, and `None` exactly when no
    /// item carries that string.
    pub fn parse(text: &str) -> (r: Option<ItemId>)
        ensures
            r == lookup(text@),
    {
        let found = if same_text(text, "check_updates") {
            Some(ItemId::CheckUpdates)
        } else if same_text(text, "preferences") {
            Some(ItemId::Preferences)
        } else if same_text(text, "import_book") {
            Some(ItemId::ImportBook)
        } else if same_text(text, "new_window") {
            Some(ItemId::NewWindow)
        } else if same_text(text, "library") {
            Some(ItemId::Library)
        } else if same_text(text, "flashcards") {
            Some(ItemId::Flashcards)
        } else if same_text(text, "social") {
            Some(ItemId::Social)
        } else if same_text(text, "prev_page") {
            Some(ItemId::PrevPage)
        } else if same_text(text, "next_page") {
            Some(ItemId::NextPage)
        } else if same_text(text, "toggle_tts") {
            Some(ItemId::ToggleTts)
        } else if same_text(text, "add_bookmark") {
            Some(ItemId::AddBookmark)
        } else if same_text(text, "add_note") {
            Some(ItemId::AddNote)
        } else if same_text(text, "search_book") {
            Some(ItemId::SearchBook)
        } else if same_text(text, "table_of_contents") {
            Some(ItemId::TableOfContents)
        } else if same_text(text, "documentation") {
            Some(ItemId::Documentation)
        } else if same_text(text, "shortcuts") {
            Some(ItemId::Shortcuts)
        } else if same_text(text, "report_issue") {
            Some(ItemId::ReportIssue)
        } else if same_text(text, "tray_title") {
            Some(ItemId::TrayTitle)
        } else if same_text(text, "tray_show") {
            Some(ItemId::TrayShow)
        } else if same_text(text, "tray_hide") {
            Some(ItemId::TrayHide)
        } else if same_text(text, "tray_library") {
            Some(ItemId::TrayLibrary)
        } else if same_text(text, "tray_continue") {
            Some(ItemId::TrayContinue)
        } else if same_text(text, "tray_flashcards") {
            Some(ItemId::TrayFlashcards)
        } else if same_text(text, "tray_settings") {
            Some(ItemId::TraySettings)
        } else if same_text(text, "tray_quit") {
            Some(ItemId::TrayQuit)
        } else {
            None
        };
        proof {
            match found {
                Some(id) => {
                    assert(id.name() == text@);
                    lemma_lookup_round_trip(id, text@);
                },
                None => {
                    assert forall|id: ItemId| id.name() != text@ by {
                        assert(id.name() == id.name());
                    }
                },
            }
        }
        found
    }
}

/// The item registered under `text`: the one whose name is `text`, if any.
pub open spec fn lookup(text: Seq<char>) -> Option<ItemId> {
    if exists|id: ItemId| id.name() == text {
        Some(choose|id: ItemId| id.name() == text)
    } else {
        None
    }
}

/// Whether two strings hold the same characters.
pub fn same_text(a: &str, b: &str) -> (r: bool)
    ensures
        r == (a@ == b@),
{
    let left = a.to_owned();
    let right = b.to_owned();
    left == right
}

/// Distinct items carry distinct identifier strings.
pub proof fn lemma_names_distinct(a: ItemId, b: ItemId)
    ensures
        a.name() == b.name() <==> a == b,
{
    reveal_strlit("check_updates");
    reveal_strlit("preferences");
    reveal_strlit("import_book");
    reveal_strlit("new_window");
    reveal_strlit("library");
    reveal_strlit("flashcards");
    reveal_strlit("social");
    reveal_strlit("prev_page");
    reveal_strlit("next_page");
    reveal_strlit("toggle_tts");
    reveal_strlit("add_bookmark");
    reveal_strlit("add_note");
    reveal_strlit("search_book");
    reveal_strlit("table_of_contents");
    reveal_strlit("documentation");
    reveal_strlit("shortcuts");
    reveal_strlit("report_issue");
    reveal_strlit("tray_title");
    reveal_strlit("tray_show");
    reveal_strlit("tray_hide");
    reveal_strlit("tray_library");
    reveal_strlit("tray_continue");
    reveal_strlit("tray_flashcards");
    reveal_strlit("tray_settings");
    reveal_strlit("tray_quit");
    let x = a.name();
    let y = b.name();
    assert(a != b ==> x.len() != y.len() || x[0] != y[0] || x[5] != y[5]);
}

/// Looking up the name of an item finds that item, and a string that is
/// found is the name of what was found.
pub proof fn lemma_lookup_round_trip(id: ItemId, text: Seq<char>)
    ensures
        lookup(id.name()) == Some(id),
        lookup(text) == Some(id) <==> id.name() == text,
{
    lemma_names_distinct(id, lookup(id.name()).unwrap());
    if lookup(text) is Some {
        lemma_names_distinct(id, lookup(text).unwrap());
    }
}

} // verus!
