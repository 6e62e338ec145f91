//! The tray menu as data, and how it is built from a configuration snapshot.
use crate::ident::{encode, encode_spec, same_text, Category};
use vstd::prelude::*;
use vstd::string::*;

verus! {

/// At most this many projects get a submenu; the rest are left out.
pub const MAX_PROJECTS: usize = 5;

/// A named workspace, bound to at most one version (or group name).
#[derive(PartialEq, Eq, Debug, Clone)]
pub struct Project {
    pub name: String,
    pub version: Option<String>,
}

/// A named version alias.
#[derive(PartialEq, Eq, Debug, Clone)]
pub struct Group {
    pub name: String,
}

/// A point-in-time read of the configuration that the menu shows.
#[derive(PartialEq, Eq, Debug, Clone)]
pub struct Snapshot {
    pub locale: Option<String>,
    pub projects: Vec<Project>,
    pub groups: Vec<Group>,
    pub installed: Vec<String>,
    pub current: Option<String>,
}

pub struct ProjectView {
    pub name: Seq<char>,
    pub version: Option<Seq<char>>,
}

pub struct SnapshotView {
    pub locale: Option<Seq<char>>,
    pub projects: Seq<ProjectView>,
    pub groups: Seq<Seq<char>>,
    pub installed: Seq<Seq<char>>,
    pub current: Option<Seq<char>>,
}

pub open spec fn opt_view(o: Option<String>) -> Option<Seq<char>> {
    match o {
        Some(s) => Some(s@),
        None => None,
    }
}

pub open spec fn or_empty(o: Option<Seq<char>>) -> Seq<char> {
    match o {
        Some(s) => s,
        None => Seq::empty(),
    }
}

pub open spec fn texts(v: Seq<String>) -> Seq<Seq<char>> {
    v.map_values(|s: String| s@)
}

impl View for Project {
    type V = ProjectView;

    open spec fn view(&self) -> ProjectView {
        ProjectView { name: self.name@, version: opt_view(self.version) }
    }
}

impl View for Snapshot {
    type V = SnapshotView;

    open spec fn view(&self) -> SnapshotView {
        SnapshotView {
            locale: opt_view(self.locale),
            projects: self.projects@.map_values(|p: Project| p@),
            groups: self.groups@.map_values(|g: Group| g.name@),
            installed: texts(self.installed@),
            current: opt_view(self.current),
        }
    }
}

/// A leaf entry of the menu.
#[derive(PartialEq, Eq, Debug, Clone)]
pub enum MenuItem {
    Action { id: String, label: String, accelerator: Option<String> },
    Check { id: String, label: String, checked: bool },
    Separator,
}

pub enum ItemView {
    Action { id: Seq<char>, label: Seq<char>, accelerator: Option<Seq<char>> },
    Check { id: Seq<char>, label: Seq<char>, checked: bool },
    Separator,
}

impl View for MenuItem {
    type V = ItemView;

    open spec fn view(&self) -> ItemView {
        match self {
            MenuItem::Action { id, label, accelerator } => ItemView::Action {
                id: id@,
                label: label@,
                accelerator: opt_view(*accelerator),
            },
            MenuItem::Check { id, label, checked } => ItemView::Check {
                id: id@,
                label: label@,
                checked: *checked,
            },
            MenuItem::Separator => ItemView::Separator,
        }
    }
}

pub open spec fn item_views(v: Seq<MenuItem>) -> Seq<ItemView> {
    v.map_values(|i: MenuItem| i@)
}

/// A top-level entry of the menu.
#[derive(PartialEq, Eq, Debug, Clone)]
pub enum MenuNode {
    Item(MenuItem),
    Submenu { id: String, label: String, items: Vec<MenuItem> },
    /// The predefined About entry; its metadata is the application's own.
    About { label: String },
}

pub enum NodeView {
    Item(ItemView),
    Submenu { id: Seq<char>, label: Seq<char>, items: Seq<ItemView> },
    About { label: Seq<char> },
}

impl View for MenuNode {
    type V = NodeView;

    open spec fn view(&self) -> NodeView {
        match self {
            MenuNode::Item(i) => NodeView::Item(i@),
            MenuNode::Submenu { id, label, items } => NodeView::Submenu {
                id: id@,
                label: label@,
                items: item_views(items@),
            },
            MenuNode::About { label } => NodeView::About { label: label@ },
        }
    }
}

/// The whole menu, top-level entries in display order.
#[derive(PartialEq, Eq, Debug, Clone)]
pub struct TrayMenu {
    pub nodes: Vec<MenuNode>,
}

impl View for TrayMenu {
    type V = Seq<NodeView>;

    open spec fn view(&self) -> Seq<NodeView> {
        self.nodes@.map_values(|n: MenuNode| n@)
    }
}

/// One checkable entry per version, checked where it equals `current`.
pub open spec fn check_items(versions: Seq<Seq<char>>, owner: Seq<char>, current: Seq<char>) -> Seq<
    ItemView,
> {
    Seq::new(
        versions.len(),
        |i: int|
            ItemView::Check {
                id: encode_spec(Category::Version, owner, versions[i]),
                label: "v"@ + versions[i],
                checked: versions[i] == current,
            },
    )
}

/// Builds the checkable version entries for `name`: one per version, in order,
/// identified as version entries of `name` and checked where the version
/// equals `current`.
pub fn gen_check_menu_items(versions: &Vec<String>, name: &str, current: &str) -> (r: Vec<MenuItem>)
    ensures
        item_views(r@) == check_items(texts(versions@), name@, current@),
{
    let mut r: Vec<MenuItem> = Vec::new();
    let mut i: usize = 0;
    while i < versions.len()
        invariant
            i <= versions@.len(),
            r@.len() == i,
            forall|k: int|
                0 <= k < i ==> #[trigger] r@[k]@ == check_items(texts(versions@), name@, current@)[k],
        decreases versions@.len() - i,
    {
        let v = versions[i].as_str();
        let mut label = "v".to_owned();
        label.append(v);
        let checked = same_text(current, v);
        r.push(MenuItem::Check { id: encode(Category::Version, name, v), label, checked });
        i = i + 1;
    }
    assert(item_views(r@) =~= check_items(texts(versions@), name@, current@));
    r
}

/// The entry texts that depend on the locale.
pub struct Labels {
    pub open_window: String,
    pub open_dir: String,
    pub data_dir: String,
    pub logs_dir: String,
    pub dev_tools: String,
    pub about: String,
    pub quit: String,
}

pub struct LabelsView {
    pub open_window: Seq<char>,
    pub open_dir: Seq<char>,
    pub data_dir: Seq<char>,
    pub logs_dir: Seq<char>,
    pub dev_tools: Seq<char>,
    pub about: Seq<char>,
    pub quit: Seq<char>,
}

impl View for Labels {
    type V = LabelsView;

    open spec fn view(&self) -> LabelsView {
        LabelsView {
            open_window: self.open_window@,
            open_dir: self.open_dir@,
            data_dir: self.data_dir@,
            logs_dir: self.logs_dir@,
            dev_tools: self.dev_tools@,
            about: self.about@,
            quit: self.quit@,
        }
    }
}

/// Chinese texts are used exactly for the locale tag `zh-CN`.
pub open spec fn is_zh(locale: Option<Seq<char>>) -> bool {
    locale == Some("zh-CN"@)
}

pub open spec fn labels_spec(zh: bool) -> LabelsView {
    if zh {
        LabelsView {
            open_window: "NVM-Desktop"@,
            open_dir: "打开目录"@,
            data_dir: "数据目录"@,
            logs_dir: "日志目录"@,
            dev_tools: "开发者工具"@,
            about: "关于 NVM-Desktop"@,
            quit: "退出 NVM-Desktop"@,
        }
    } else {
        LabelsView {
            open_window: "NVM-Desktop"@,
            open_dir: "Open Dir"@,
            data_dir: "Data Dir"@,
            logs_dir: "Logs Dir"@,
            dev_tools: "Open Dev Tools"@,
            about: "About NVM-Desktop"@,
            quit: "Quit NVM-Desktop"@,
        }
    }
}

/// The text bundle for a locale tag.
pub fn labels_for(locale: &Option<String>) -> (r: Labels)
    ensures
        r@ == labels_spec(is_zh(opt_view(*locale))),
{
    let zh = match locale {
        Some(tag) => same_text(tag.as_str(), "zh-CN"),
        None => false,
    };
    if zh {
        Labels {
            open_window: "NVM-Desktop".to_owned(),
            open_dir: "打开目录".to_owned(),
            data_dir: "数据目录".to_owned(),
            logs_dir: "日志目录".to_owned(),
            dev_tools: "开发者工具".to_owned(),
            about: "关于 NVM-Desktop".to_owned(),
            quit: "退出 NVM-Desktop".to_owned(),
        }
    } else {
        Labels {
            open_window: "NVM-Desktop".to_owned(),
            open_dir: "Open Dir".to_owned(),
            data_dir: "Data Dir".to_owned(),
            logs_dir: "Logs Dir".to_owned(),
            dev_tools: "Open Dev Tools".to_owned(),
            about: "About NVM-Desktop".to_owned(),
            quit: "Quit NVM-Desktop".to_owned(),
        }
    }
}

/// One checkable entry per group, identified as a group entry of `owner`
/// and checked where the group's name equals `current`.
pub open spec fn group_items(groups: Seq<Seq<char>>, owner: Seq<char>, current: Seq<char>) -> Seq<
    ItemView,
> {
    Seq::new(
        groups.len(),
        |i: int|
            ItemView::Check {
                id: encode_spec(Category::Group, owner, groups[i]),
                label: groups[i],
                checked: groups[i] == current,
            },
    )
}

/// A project's submenu: its version entries, a separator, its group entries.
pub open spec fn project_node(p: ProjectView, installed: Seq<Seq<char>>, groups: Seq<Seq<char>>) -> NodeView {
    let current = or_empty(p.version);
    NodeView::Submenu {
        id: p.name,
        label: p.name,
        items: check_items(installed, p.name, current) + seq![ItemView::Separator]
            + group_items(groups, p.name, current),
    }
}

fn gen_group_items(groups: &Vec<Group>, name: &str, current: &str) -> (r: Vec<MenuItem>)
    ensures
        item_views(r@) == group_items(groups@.map_values(|g: Group| g.name@), name@, current@),
{
    let ghost names = groups@.map_values(|g: Group| g.name@);
    let mut r: Vec<MenuItem> = Vec::new();
    let mut i: usize = 0;
    while i < groups.len()
        invariant
            names == groups@.map_values(|g: Group| g.name@),
            i <= groups@.len(),
            r@.len() == i,
            forall|k: int| 0 <= k < i ==> #[trigger] r@[k]@ == group_items(names, name@, current@)[k],
        decreases groups@.len() - i,
    {
        let g = groups[i].name.as_str();
        let checked = same_text(current, g);
        r.push(MenuItem::Check { id: encode(Category::Group, name, g), label: g.to_owned(), checked });
        i = i + 1;
    }
    assert(item_views(r@) =~= group_items(names, name@, current@));
    r
}

fn project_submenu(p: &Project, installed: &Vec<String>, groups: &Vec<Group>) -> (r: MenuNode)
    ensures
        r@ == project_node(p@, texts(installed@), groups@.map_values(|g: Group| g.name@)),
{
    let current = match &p.version {
        Some(v) => v.as_str(),
        None => "",
    };
    proof {
        reveal_strlit("");
    }
    assert(current@ == or_empty(p@.version));
    let mut items = gen_check_menu_items(installed, p.name.as_str(), current);
    let ghost versions = items@;
    items.push(MenuItem::Separator);
    let mut group_entries = gen_group_items(groups, p.name.as_str(), current);
    let ghost gs = group_entries@;
    items.append(&mut group_entries);
    assert(item_views(items@) =~= item_views(versions) + seq![ItemView::Separator] + item_views(gs));
    MenuNode::Submenu { id: p.name.clone(), label: p.name.clone(), items }
}

/// How many projects get a submenu.
pub open spec fn shown(n: int) -> int {
    if n < MAX_PROJECTS {
        n
    } else {
        MAX_PROJECTS as int
    }
}

pub open spec fn action(id: Seq<char>, label: Seq<char>) -> NodeView {
    NodeView::Item(ItemView::Action { id, label, accelerator: None })
}

/// The menu for a snapshot: the main-window entry, a separator, the global
/// version submenu, one submenu for each of the first projects in their
/// order, a separator, then the fixed utility entries.
pub open spec fn menu_spec(s: SnapshotView) -> Seq<NodeView> {
    let l = labels_spec(is_zh(s.locale));
    seq![
        action("open_window"@, l.open_window),
        NodeView::Item(ItemView::Separator),
        NodeView::Submenu {
            id: "global"@,
            label: "Global (default)"@,
            items: check_items(s.installed, "global"@, or_empty(s.current)),
        },
    ] + Seq::new(
        shown(s.projects.len() as int) as nat,
        |i: int| project_node(s.projects[i], s.installed, s.groups),
    ) + seq![
        NodeView::Item(ItemView::Separator),
        NodeView::Submenu {
            id: "open_dirs"@,
            label: l.open_dir,
            items: seq![
                ItemView::Action { id: "open_data_dir"@, label: l.data_dir, accelerator: None },
                ItemView::Action { id: "open_logs_dir"@, label: l.logs_dir, accelerator: None },
            ],
        },
        action("open_dev_tools"@, l.dev_tools),
        NodeView::About { label: l.about },
        NodeView::Item(
            ItemView::Action { id: "quit"@, label: l.quit, accelerator: Some("CmdOrCtrl+Q"@) },
        ),
    ]
}

fn action_item(id: &str, label: String) -> (r: MenuItem)
    ensures
        r@ == (ItemView::Action { id: id@, label: label@, accelerator: None }),
{
    MenuItem::Action { id: id.to_owned(), label, accelerator: None }
}

/// Builds the menu for a snapshot.
pub(crate) fn build_menu(snapshot: &Snapshot) -> (r: TrayMenu)
    ensures
        r@ == menu_spec(snapshot@),
{
    let ghost sv = snapshot@;
    let l = labels_for(&snapshot.locale);
    let current = match &snapshot.current {
        Some(v) => v.as_str(),
        None => "",
    };
    proof {
        reveal_strlit("");
    }
    assert(current@ == or_empty(sv.current));
    let mut nodes: Vec<MenuNode> = Vec::new();
    nodes.push(MenuNode::Item(action_item("open_window", l.open_window)));
    nodes.push(MenuNode::Item(MenuItem::Separator));
    nodes.push(
        MenuNode::Submenu {
            id: "global".to_owned(),
            label: "Global (default)".to_owned(),
            items: gen_check_menu_items(&snapshot.installed, "global", current),
        },
    );
    let ghost head = nodes@;
    assert(head.len() == 3);
    let n = if snapshot.projects.len() < MAX_PROJECTS {
        snapshot.projects.len()
    } else {
        MAX_PROJECTS
    };
    let mut i: usize = 0;
    while i < n
        invariant
            sv == snapshot@,
            n == shown(sv.projects.len() as int),
            i <= n,
            head.len() == 3,
            nodes@.len() == 3 + i,
            forall|k: int| 0 <= k < 3 ==> nodes@[k] == head[k],
            forall|k: int|
                0 <= k < i ==> #[trigger] nodes@[3 + k]@ == project_node(
                    sv.projects[k],
                    sv.installed,
                    sv.groups,
                ),
        decreases n - i,
    {
        nodes.push(project_submenu(&snapshot.projects[i], &snapshot.installed, &snapshot.groups));
        i = i + 1;
    }
    nodes.push(MenuNode::Item(MenuItem::Separator));
    let dirs = vec![action_item("open_data_dir", l.data_dir), action_item("open_logs_dir", l.logs_dir)];
    let ghost dir_items = dirs@;
    nodes.push(MenuNode::Submenu { id: "open_dirs".to_owned(), label: l.open_dir, items: dirs });
    nodes.push(MenuNode::Item(action_item("open_dev_tools", l.dev_tools)));
    nodes.push(MenuNode::About { label: l.about });
    nodes.push(
        MenuNode::Item(
            MenuItem::Action {
                id: "quit".to_owned(),
                label: l.quit,
                accelerator: Some("CmdOrCtrl+Q".to_owned()),
            },
        ),
    );
    let r = TrayMenu { nodes };
    let ghost m = menu_spec(sv);
    assert(r@.len() == m.len());
    assert forall|k: int| 0 <= k < m.len() implies r@[k] == m[k] by {
        if k < 3 {
            assert(nodes@[k] == head[k]);
        } else if k < 3 + n {
            assert(nodes@[3 + (k - 3)]@ == project_node(sv.projects[k - 3], sv.installed, sv.groups));
        } else if k == 3 + n + 1 {
            assert(item_views(dir_items) =~= m[3 + n + 1]->Submenu_items);
        }
    }
    assert(r@ =~= m);
    r
}

} // verus!
