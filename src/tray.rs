//! The tray's decisions: which action a selected entry asks for, and what a
//! refresh installs and announces.
use crate::ident::{
    decode, decode_spec, delim, delimiter_free, encode_spec, lemma_round_trip, match_at, same_text,
    seams_clean, Category,
};
use crate::menu::{build_menu, menu_spec, Snapshot, TrayMenu};
use vstd::prelude::*;

verus! {

/// The tray of the application; its operations read the host's state as
/// plain values and hand back what the host is to do.
pub struct Tray {}

/// What a selected menu entry asks for.
#[derive(PartialEq, Eq, Debug, Clone)]
pub enum MenuAction {
    OpenWindow,
    Quit,
    OpenDataDir,
    OpenLogsDir,
    OpenDevTools,
    /// Switch the global version.
    SetGlobalVersion(String),
    /// Bind a project to a version: (project, version).
    SetProjectVersion(String, String),
    /// Bind a project to a group: (project, group).
    SetProjectGroup(String, String),
    /// Not an identifier this menu hands out: nothing is done.
    Ignore,
}

pub enum ActionView {
    OpenWindow,
    Quit,
    OpenDataDir,
    OpenLogsDir,
    OpenDevTools,
    SetGlobalVersion(Seq<char>),
    SetProjectVersion(Seq<char>, Seq<char>),
    SetProjectGroup(Seq<char>, Seq<char>),
    Ignore,
}

impl View for MenuAction {
    type V = ActionView;

    open spec fn view(&self) -> ActionView {
        match self {
            MenuAction::OpenWindow => ActionView::OpenWindow,
            MenuAction::Quit => ActionView::Quit,
            MenuAction::OpenDataDir => ActionView::OpenDataDir,
            MenuAction::OpenLogsDir => ActionView::OpenLogsDir,
            MenuAction::OpenDevTools => ActionView::OpenDevTools,
            MenuAction::SetGlobalVersion(v) => ActionView::SetGlobalVersion(v@),
            MenuAction::SetProjectVersion(p, v) => ActionView::SetProjectVersion(p@, v@),
            MenuAction::SetProjectGroup(p, g) => ActionView::SetProjectGroup(p@, g@),
            MenuAction::Ignore => ActionView::Ignore,
        }
    }
}

/// The action for a decoded (or undecodable) identifier.
pub open spec fn decoded_action(d: Option<(Category, Seq<char>, Seq<char>)>) -> ActionView {
    match d {
        Some((Category::Version, owner, target)) => if owner == "global"@ {
            ActionView::SetGlobalVersion(target)
        } else {
            ActionView::SetProjectVersion(owner, target)
        },
        Some((Category::Group, owner, target)) => ActionView::SetProjectGroup(owner, target),
        None => ActionView::Ignore,
    }
}

/// The action for a menu identifier: the reserved literals first, then the
/// encoded version and group entries; anything else is ignored.
pub open spec fn action_spec(id: Seq<char>) -> ActionView {
    if id == "open_window"@ {
        ActionView::OpenWindow
    } else if id == "quit"@ {
        ActionView::Quit
    } else if id == "open_data_dir"@ {
        ActionView::OpenDataDir
    } else if id == "open_logs_dir"@ {
        ActionView::OpenLogsDir
    } else if id == "open_dev_tools"@ {
        ActionView::OpenDevTools
    } else {
        decoded_action(decode_spec(id))
    }
}

/// Why a refresh could not be done.
#[derive(PartialEq, Eq, Structural, Debug, Clone, Copy)]
pub enum TrayError {
    /// The tray icon does not exist yet.
    NotInitialized,
}

impl TrayError {
    pub fn message(&self) -> (r: String)
        ensures
            r@ == "The system tray menu has not been initialized"@,
    {
        match self {
            TrayError::NotInitialized => "The system tray menu has not been initialized".to_owned(),
        }
    }
}

/// A named event with a string payload for the main window.
#[derive(PartialEq, Eq, Debug, Clone)]
pub struct Notification {
    pub event: String,
    pub payload: String,
}

/// What a refresh with notification installs and announces.
#[derive(PartialEq, Eq, Debug, Clone)]
pub struct Refresh {
    pub menu: TrayMenu,
    pub notify: Option<Notification>,
}

impl Tray {
    /// The menu that shows `snapshot`.
    pub fn create_tray_menu(snapshot: &Snapshot) -> (r: TrayMenu)
        ensures
            r@ == menu_spec(snapshot@),
    {
        build_menu(snapshot)
    }

    /// A silent refresh: the menu to install, or `NotInitialized` when the
    /// tray icon does not exist.
    pub fn update_part(tray_exists: bool, snapshot: &Snapshot) -> (r: Result<TrayMenu, TrayError>)
        ensures
            tray_exists ==> r is Ok && r->Ok_0@ == menu_spec(snapshot@),
            !tray_exists ==> r matches Err(TrayError::NotInitialized),
    {
        if tray_exists {
            Ok(Tray::create_tray_menu(snapshot))
        } else {
            Err(TrayError::NotInitialized)
        }
    }

    /// A refresh that also announces `event` with payload `version` to the
    /// main window, when the window exists.
    pub fn update_part_with_emit(
        tray_exists: bool,
        window_exists: bool,
        snapshot: &Snapshot,
        event: &str,
        version: &str,
    ) -> (r: Result<Refresh, TrayError>)
        ensures
            tray_exists ==> r is Ok && r->Ok_0.menu@ == menu_spec(snapshot@) && (match r->Ok_0.notify {
                Some(n) => window_exists && n.event@ == event@ && n.payload@ == version@,
                None => !window_exists,
            }),
            !tray_exists ==> r matches Err(TrayError::NotInitialized),
    {
        if tray_exists {
            let menu = Tray::create_tray_menu(snapshot);
            let notify = if window_exists {
                Some(Notification { event: event.to_owned(), payload: version.to_owned() })
            } else {
                None
            };
            Ok(Refresh { menu, notify })
        } else {
            Err(TrayError::NotInitialized)
        }
    }

    /// The action that the menu entry `id` asks for.
    pub fn on_menu_event(id: &str) -> (r: MenuAction)
        ensures
            r@ == action_spec(id@),
    {
        if same_text(id, "open_window") {
            MenuAction::OpenWindow
        } else if same_text(id, "quit") {
            MenuAction::Quit
        } else if same_text(id, "open_data_dir") {
            MenuAction::OpenDataDir
        } else if same_text(id, "open_logs_dir") {
            MenuAction::OpenLogsDir
        } else if same_text(id, "open_dev_tools") {
            MenuAction::OpenDevTools
        } else {
            match decode(id) {
                Some((Category::Version, owner, target)) => Tray::handle_version_change(owner, target),
                Some((Category::Group, owner, target)) => Tray::handle_group_change(owner, target),
                None => MenuAction::Ignore,
            }
        }
    }

    fn handle_version_change(name: String, version: String) -> (r: MenuAction)
        ensures
            r@ == decoded_action(Some((Category::Version, name@, version@))),
    {
        if same_text(name.as_str(), "global") {
            MenuAction::SetGlobalVersion(version)
        } else {
            MenuAction::SetProjectVersion(name, version)
        }
    }

    fn handle_group_change(name: String, group: String) -> (r: MenuAction)
        ensures
            r@ == decoded_action(Some((Category::Group, name@, group@))),
    {
        MenuAction::SetProjectGroup(name, group)
    }
}

proof fn lemma_delims_at_ends(s: Seq<char>, c: Category, i: int)
    requires
        match_at(s, delim(c), i),
    ensures
        s[i] == '_',
        s[i + delim(c).len() - 1] == '_',
        delim(c).len() == 9 || delim(c).len() == 7,
{
    reveal_strlit("_version_");
    reveal_strlit("_group_");
    assert(s.subrange(i, i + delim(c).len())[0] == delim(c)[0]);
    assert(s.subrange(i, i + delim(c).len())[delim(c).len() - 1] == delim(c)[delim(c).len() - 1]);
}

/// A menu entry's identifier selects the action it was made for: it differs
/// from every reserved literal, and decodes back to its own triple, for names
/// that hold neither delimiter and meet at clean seams.
pub proof fn lemma_entry_routes_back(c: Category, owner: Seq<char>, target: Seq<char>)
    requires
        delimiter_free(owner),
        delimiter_free(target),
        seams_clean(c, owner, target),
    ensures
        action_spec(encode_spec(c, owner, target)) == decoded_action(Some((c, owner, target))),
{
    lemma_round_trip(c, owner, target);
    let s = encode_spec(c, owner, target);
    let o = owner.len() as int;
    assert(s.subrange(o, o + delim(c).len()) =~= delim(c));
    lemma_delims_at_ends(s, c, o);
    reveal_strlit("open_window");
    reveal_strlit("quit");
    reveal_strlit("open_data_dir");
    reveal_strlit("open_logs_dir");
    reveal_strlit("open_dev_tools");
}

/// Building is deterministic: snapshots that read the same give the same menu.
pub proof fn lemma_build_deterministic(a: Snapshot, b: Snapshot)
    requires
        a@ == b@,
    ensures
        menu_spec(a@) == menu_spec(b@),
{
}

} // verus!
