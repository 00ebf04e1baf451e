use vstd::prelude::*;
use vstd::string::StringExecFns;

verus! {

/// The menu items whose behaviour the platform provides.
#[derive(PartialEq, Eq, Structural, Clone, Copy, Debug)]
pub enum StandardItem {
    Separator,
    Hide,
    HideOthers,
    ShowAll,
    Quit,
    Undo,
    Redo,
    Cut,
    Copy,
    Paste,
    SelectAll,
    Minimize,
    Fullscreen,
    CloseWindow,
}

/// One entry of a submenu.
#[derive(Clone, Debug, PartialEq, Eq)]
pub enum MenuEntry {
    /// An item of the application's own, reported by `id` when clicked.
    Action { id: String, label: String, enabled: bool },
    /// A platform item, with the platform's label unless one is given.
    Standard { item: StandardItem, label: Option<String> },
}

/// A titled submenu of the menu bar.
#[derive(Clone, Debug, PartialEq, Eq)]
pub struct Submenu {
    pub title: String,
    pub enabled: bool,
    pub entries: Vec<MenuEntry>,
}

/// A menu entry as plain values.
pub enum EntryView {
    Action { id: Seq<char>, label: Seq<char>, enabled: bool },
    Standard { item: StandardItem, label: Option<Seq<char>> },
}

/// A submenu as plain values.
pub struct SubmenuView {
    pub title: Seq<char>,
    pub enabled: bool,
    pub entries: Seq<EntryView>,
}

impl View for MenuEntry {
    type V = EntryView;

    open spec fn view(&self) -> EntryView {
        match self {
            MenuEntry::Action { id, label, enabled } => EntryView::Action { id: id@, label: label@, enabled: *enabled },
            MenuEntry::Standard { item, label } => EntryView::Standard {
                item: *item,
                label: match label {
                    Some(l) => Some(l@),
                    None => None,
                },
            },
        }
    }
}

impl View for Submenu {
    type V = SubmenuView;

    open spec fn view(&self) -> SubmenuView {
        SubmenuView {
            title: self.title@,
            enabled: self.enabled,
            entries: self.entries@.map_values(|e: MenuEntry| e@),
        }
    }
}

/// The identifier reported when the update-check item is clicked.
pub open spec fn check_updates_id() -> Seq<char> {
    "check_updates"@
}

/// A platform item with the platform's label.
pub open spec fn standard(item: StandardItem) -> EntryView {
    EntryView::Standard { item, label: None }
}

/// A platform item with a label of the application's.
pub open spec fn standard_labelled(item: StandardItem, label: Seq<char>) -> EntryView {
    EntryView::Standard { item, label: Some(label) }
}

/// The menu bar: the application menu, the edit menu and the window menu.
pub open spec fn menu_bar_spec() -> Seq<SubmenuView> {
    seq![
        SubmenuView {
            title: "Angular Momentum"@,
            enabled: true,
            entries: seq![
                EntryView::Action { id: check_updates_id(), label: "Check for Updates..."@, enabled: true },
                standard(StandardItem::Separator),
                standard_labelled(StandardItem::Hide, "Hide Angular Momentum"@),
                standard_labelled(StandardItem::HideOthers, "Hide Others"@),
                standard_labelled(StandardItem::ShowAll, "Show All"@),
                standard(StandardItem::Separator),
                standard_labelled(StandardItem::Quit, "Quit Angular Momentum"@),
            ],
        },
        SubmenuView {
            title: "Edit"@,
            enabled: true,
            entries: seq![
                standard(StandardItem::Undo),
                standard(StandardItem::Redo),
                standard(StandardItem::Separator),
                standard(StandardItem::Cut),
                standard(StandardItem::Copy),
                standard(StandardItem::Paste),
                standard(StandardItem::SelectAll),
            ],
        },
        SubmenuView {
            title: "Window"@,
            enabled: true,
            entries: seq![
                standard(StandardItem::Minimize),
                standard_labelled(StandardItem::Fullscreen, "Enter Full Screen"@),
                standard(StandardItem::Separator),
                standard(StandardItem::CloseWindow),
            ],
        },
    ]
}

fn plain(item: StandardItem) -> (e: MenuEntry)
    ensures
        e@ == standard(item),
{
    MenuEntry::Standard { item, label: None }
}

fn labelled(item: StandardItem, label: &str) -> (e: MenuEntry)
    ensures
        e@ == standard_labelled(item, label@),
{
    MenuEntry::Standard { item, label: Some(String::from_str(label)) }
}

fn submenu(title: &str, entries: Vec<MenuEntry>) -> (m: Submenu)
    ensures
        m.title@ == title@,
        m.enabled,
        m.entries == entries,
{
    Submenu { title: String::from_str(title), enabled: true, entries }
}

/// Builds the menu bar that desktop platforms install at startup.
pub fn menu_bar() -> (r: Vec<Submenu>)
    ensures
        r@.map_values(|m: Submenu| m@) == menu_bar_spec(),
{
    let check_updates = MenuEntry::Action {
        id: String::from_str("check_updates"),
        label: String::from_str("Check for Updates..."),
        enabled: true,
    };
    let app = submenu("Angular Momentum", vec![
        check_updates,
        plain(StandardItem::Separator),
        labelled(StandardItem::Hide, "Hide Angular Momentum"),
        labelled(StandardItem::HideOthers, "Hide Others"),
        labelled(StandardItem::ShowAll, "Show All"),
        plain(StandardItem::Separator),
        labelled(StandardItem::Quit, "Quit Angular Momentum"),
    ]);
    let edit = submenu("Edit", vec![
        plain(StandardItem::Undo),
        plain(StandardItem::Redo),
        plain(StandardItem::Separator),
        plain(StandardItem::Cut),
        plain(StandardItem::Copy),
        plain(StandardItem::Paste),
        plain(StandardItem::SelectAll),
    ]);
    let window = submenu("Window", vec![
        plain(StandardItem::Minimize),
        labelled(StandardItem::Fullscreen, "Enter Full Screen"),
        plain(StandardItem::Separator),
        plain(StandardItem::CloseWindow),
    ]);
    assert(app@.entries =~= menu_bar_spec()[0].entries);
    assert(edit@.entries =~= menu_bar_spec()[1].entries);
    assert(window@.entries =~= menu_bar_spec()[2].entries);
    let r = vec![app, edit, window];
    assert(r@.map_values(|m: Submenu| m@) =~= menu_bar_spec());
    r
}

/// What a click on a menu item asks of the application.
#[derive(PartialEq, Eq, Structural, Clone, Copy, Debug)]
pub enum MenuCommand {
    /// Run one update check in the background.
    CheckForUpdates,
}

/// The command for the menu item reported by `id`: the update check for the
/// update-check item, nothing for any other identifier.
pub fn command_for(id: &str) -> (r: Option<MenuCommand>)
    ensures
        r == (if id@ == check_updates_id() { Some(MenuCommand::CheckForUpdates) } else { None::<MenuCommand> }),
{
    if String::from_str(id) == String::from_str("check_updates") {
        Some(MenuCommand::CheckForUpdates)
    } else {
        None
    }
}

} // verus!
