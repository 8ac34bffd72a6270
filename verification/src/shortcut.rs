//! Keyboard shortcuts: those of an application's menu bar, gathered from
//! its menu tree, and the system-wide symbolic hot keys, read from the
//! preferences in their JSON form.
use vstd::prelude::*;
use crate::json::{
    as_array_spec, as_i64_spec, get_opt, get_spec, index_spec, JsonNumber, JsonValue,
};
use crate::text::{
    i64_to_decimal, is_blank, is_blank_str, join_strings, join_with, parse_i64, parse_signed,
    signed_decimal, string_views, trim, trim_string,
};

verus! {

/// A shortcut of an application's menu: the path of menu titles that leads
/// to the item, the modifier symbols, and the key.
pub struct ShortcutItem {
    pub menu_path: String,
    pub modifiers: String,
    pub key: String,
}

/// A system-wide symbolic hot key.
pub struct GlobalShortcutItem {
    pub id: i64,
    pub name: String,
    pub enabled: bool,
    pub modifiers: String,
    pub key_code: i64,
}

/// A node of an application's menu tree, with the accessibility attributes
/// that the shortcut collection reads.
pub struct MenuNode {
    /// `AXTitle`.
    pub title: Option<String>,
    /// `AXMenuItemCmdChar`.
    pub cmd_char: Option<String>,
    /// `AXMenuItemCmdModifiers`.
    pub cmd_modifiers: Option<i64>,
    /// `AXChildren`.
    pub children: Vec<MenuNode>,
}

/// Why the system hot keys could not be read.
pub enum ShortcutError {
    /// The preferences hold no `AppleSymbolicHotKeys` object.
    NoSymbolicHotKeys,
}

/// What a menu shortcut holds, as text.
pub struct ShortcutView {
    pub menu_path: Seq<char>,
    pub modifiers: Seq<char>,
    pub key: Seq<char>,
}

impl View for ShortcutItem {
    type V = ShortcutView;

    open spec fn view(&self) -> ShortcutView {
        ShortcutView { menu_path: self.menu_path@, modifiers: self.modifiers@, key: self.key@ }
    }
}

/// The deepest level of the menu tree that is visited.
pub open spec fn max_menu_depth() -> nat {
    64
}

/// The symbols of the modifiers in a menu item's `AXMenuItemCmdModifiers`:
/// Command always, then Shift (bit 0), Option (bit 1) and Control (bit 2).
pub open spec fn menu_modifier_symbols(raw: i64) -> Seq<char> {
    seq!['⌘'] + (if raw & 1 != 0 {
        seq!['⇧']
    } else {
        Seq::empty()
    }) + (if raw & 2 != 0 {
        seq!['⌥']
    } else {
        Seq::empty()
    }) + (if raw & 4 != 0 {
        seq!['⌃']
    } else {
        Seq::empty()
    })
}

/// The symbols of the modifiers in a symbolic hot key's mask: Command
/// (bit 20), Shift (17), Option (19), Control (18), Fn (23), Caps Lock (16).
pub open spec fn global_modifier_symbols(mask: i64) -> Seq<char> {
    (if mask & 0x10_0000 != 0 {
        seq!['⌘']
    } else {
        Seq::empty()
    }) + (if mask & 0x2_0000 != 0 {
        seq!['⇧']
    } else {
        Seq::empty()
    }) + (if mask & 0x8_0000 != 0 {
        seq!['⌥']
    } else {
        Seq::empty()
    }) + (if mask & 0x4_0000 != 0 {
        seq!['⌃']
    } else {
        Seq::empty()
    }) + (if mask & 0x80_0000 != 0 {
        seq!['🌐']
    } else {
        Seq::empty()
    }) + (if mask & 0x1_0000 != 0 {
        seq!['⇪']
    } else {
        Seq::empty()
    })
}

/// The shortcut that a menu item under `path` offers: none where its
/// command character is absent or blank.
pub open spec fn item_shortcut(node: MenuNode, path: Seq<Seq<char>>) -> Option<ShortcutView> {
    let key = match node.cmd_char {
        Some(c) => trim(c@),
        None => Seq::empty(),
    };
    if key.len() == 0 {
        None
    } else {
        Some(
            ShortcutView {
                menu_path: join_with(path, " > "@),
                modifiers: menu_modifier_symbols(
                    match node.cmd_modifiers {
                        Some(m) => m,
                        None => 0,
                    },
                ),
                key: key,
            },
        )
    }
}

/// The title by which a node extends the menu path: its trimmed title,
/// where that is not empty.
pub open spec fn node_title(node: MenuNode) -> Option<Seq<char>> {
    match node.title {
        Some(t) => if trim(t@).len() > 0 {
            Some(trim(t@))
        } else {
            None
        },
        None => None,
    }
}

/// The shortcuts found below and at `node`, visited at `depth` with the
/// titles `path` above it: nothing beyond the deepest level; a titled node
/// offers its own shortcut under its path, then its children are visited
/// one level deeper.
pub open spec fn node_shortcuts(node: MenuNode, path: Seq<Seq<char>>, depth: nat) -> Seq<
    ShortcutView,
>
    decreases node, 1nat,
{
    if depth > max_menu_depth() {
        Seq::empty()
    } else {
        let p = match node_title(node) {
            Some(t) => path.push(t),
            None => path,
        };
        let own = match node_title(node) {
            Some(t) => match item_shortcut(node, p) {
                Some(s) => seq![s],
                None => Seq::empty(),
            },
            None => Seq::empty(),
        };
        own + nodes_shortcuts(node.children@, p, depth + 1)
    }
}

/// The shortcuts found at a list of sibling nodes, in order.
pub open spec fn nodes_shortcuts(nodes: Seq<MenuNode>, path: Seq<Seq<char>>, depth: nat) -> Seq<
    ShortcutView,
>
    decreases nodes, 0nat,
{
    if nodes.len() == 0 {
        Seq::empty()
    } else {
        nodes_shortcuts(nodes.drop_last(), path, depth) + node_shortcuts(
            nodes.last(),
            path,
            depth,
        )
    }
}

/// The views of a sequence of shortcuts.
pub open spec fn shortcut_views(v: Seq<ShortcutItem>) -> Seq<ShortcutView> {
    v.map_values(|s: ShortcutItem| s@)
}

/// The modifier symbols of a menu item.
pub fn modifiers_to_symbols(raw: i64) -> (s: String)
    ensures
        s@ == menu_modifier_symbols(raw),
{
    let mut v: Vec<char> = Vec::new();
    v.push('⌘');
    if raw & 1 != 0 {
        v.push('⇧');
    }
    if raw & 2 != 0 {
        v.push('⌥');
    }
    if raw & 4 != 0 {
        v.push('⌃');
    }
    assert(v@ =~= menu_modifier_symbols(raw));
    crate::text::string_of(&v)
}

/// The modifier symbols of a symbolic hot key's mask.
pub fn global_modifiers_to_symbols(mask: i64) -> (s: String)
    ensures
        s@ == global_modifier_symbols(mask),
{
    let mut v: Vec<char> = Vec::new();
    if mask & 0x10_0000 != 0 {
        v.push('⌘');
    }
    if mask & 0x2_0000 != 0 {
        v.push('⇧');
    }
    if mask & 0x8_0000 != 0 {
        v.push('⌥');
    }
    if mask & 0x4_0000 != 0 {
        v.push('⌃');
    }
    if mask & 0x80_0000 != 0 {
        v.push('🌐');
    }
    if mask & 0x1_0000 != 0 {
        v.push('⇪');
    }
    assert(v@ =~= global_modifier_symbols(mask));
    crate::text::string_of(&v)
}

/// The name of a symbolic hot key that is known by its id.
pub open spec fn known_hotkey_name(id: i64) -> Option<Seq<char>> {
    if id == 7 {
        Some("切换输入法（上一个）"@)
    } else if id == 8 {
        Some("切换输入法（下一个）"@)
    } else if id == 27 {
        Some("截取屏幕并保存文件"@)
    } else if id == 28 {
        Some("截取选定区域并保存文件"@)
    } else if id == 29 {
        Some("截取屏幕到剪贴板"@)
    } else if id == 30 {
        Some("截取选定区域到剪贴板"@)
    } else if id == 31 {
        Some("截取窗口到剪贴板"@)
    } else if id == 32 {
        Some("Mission Control"@)
    } else if id == 33 {
        Some("应用程序窗口"@)
    } else if id == 34 {
        Some("显示桌面"@)
    } else if id == 35 {
        Some("启动屏幕保护程序"@)
    } else if id == 64 {
        Some("Spotlight"@)
    } else if id == 65 {
        Some("Finder 搜索窗口"@)
    } else if id == 79 {
        Some("向左移动一个空间"@)
    } else if id == 80 {
        Some("向右移动一个空间"@)
    } else if id == 118 {
        Some("切换到桌面 1"@)
    } else if id == 119 {
        Some("切换到桌面 2"@)
    } else if id == 120 {
        Some("切换到桌面 3"@)
    } else if id == 121 {
        Some("切换到桌面 4"@)
    } else if id == 160 {
        Some("显示 Launchpad"@)
    } else if id == 161 {
        Some("显示通知中心"@)
    } else {
        None
    }
}

/// The name shown for a symbolic hot key: its known name, else
/// `系统快捷键 #<id>`.
pub open spec fn hotkey_name(id: i64) -> Seq<char> {
    match known_hotkey_name(id) {
        Some(n) => n,
        None => "系统快捷键 #"@ + signed_decimal(id as int),
    }
}

/// The name shown for a symbolic hot key.
pub fn symbolic_hotkey_name(id: i64) -> (s: String)
    ensures
        s@ == hotkey_name(id),
{
    let known = match id {
        7 => "切换输入法（上一个）",
        8 => "切换输入法（下一个）",
        27 => "截取屏幕并保存文件",
        28 => "截取选定区域并保存文件",
        29 => "截取屏幕到剪贴板",
        30 => "截取选定区域到剪贴板",
        31 => "截取窗口到剪贴板",
        32 => "Mission Control",
        33 => "应用程序窗口",
        34 => "显示桌面",
        35 => "启动屏幕保护程序",
        64 => "Spotlight",
        65 => "Finder 搜索窗口",
        79 => "向左移动一个空间",
        80 => "向右移动一个空间",
        118 => "切换到桌面 1",
        119 => "切换到桌面 2",
        120 => "切换到桌面 3",
        121 => "切换到桌面 4",
        160 => "显示 Launchpad",
        161 => "显示通知中心",
        _ => {
            let d = i64_to_decimal(id);
            return crate::text::concat2("系统快捷键 #", d.as_str());
        },
    };
    String::from_str(known)
}

/// The shortcut that a menu item under `path` offers, if any.
pub fn item_shortcut_exec(node: &MenuNode, path: &Vec<String>) -> (r: Option<ShortcutItem>)
    ensures
        match r {
            Some(s) => item_shortcut(*node, string_views(path@)) == Some(s@),
            None => item_shortcut(*node, string_views(path@)).is_none(),
        },
{
    let key = match &node.cmd_char {
        Some(c) => trim_string(c.as_str()),
        None => String::new(),
    };
    if key.as_str().unicode_len() == 0 {
        return None;
    }
    let raw = match node.cmd_modifiers {
        Some(m) => m,
        None => 0,
    };
    let modifiers = modifiers_to_symbols(raw);
    let menu_path = join_strings(path, " > ");
    Some(ShortcutItem { menu_path, modifiers, key })
}

/// The trimmed title of a node, where it is not empty.
fn node_title_exec(node: &MenuNode) -> (r: Option<String>)
    ensures
        match r {
            Some(t) => node_title(*node) == Some(t@),
            None => node_title(*node).is_none(),
        },
{
    match &node.title {
        Some(t) => {
            let tt = trim_string(t.as_str());
            if tt.as_str().unicode_len() > 0 {
                Some(tt)
            } else {
                None
            }
        },
        None => None,
    }
}

/// Visits `node` at `depth` below the titles `path`, appending the
/// shortcuts found to `out`.
pub fn traverse_menu(node: &MenuNode, path: &mut Vec<String>, depth: usize, out: &mut Vec<
    ShortcutItem,
>)
    ensures
        string_views(final(path)@) == string_views(old(path)@),
        shortcut_views(final(out)@) == shortcut_views(old(out)@) + node_shortcuts(
            *node,
            string_views(old(path)@),
            depth as nat,
        ),
    decreases node, 1nat,
{
    if depth > 64 {
        assert(shortcut_views(out@) =~= shortcut_views(out@) + Seq::empty());
        return ;
    }
    let ghost path0 = string_views(path@);
    let ghost out0 = shortcut_views(out@);
    let title = node_title_exec(node);
    let pushed = title.is_some();
    match title {
        Some(t) => {
            path.push(t);
            assert(string_views(path@) =~= path0.push(node_title(*node)->0));
            match item_shortcut_exec(node, path) {
                Some(s) => {
                    out.push(s);
                },
                None => {},
            }
        },
        None => {},
    }
    let ghost p = string_views(path@);
    let ghost out1 = shortcut_views(out@);
    assert(out1 =~= out0 + match node_title(*node) {
        Some(t) => match item_shortcut(*node, p) {
            Some(s) => seq![s],
            None => Seq::<ShortcutView>::empty(),
        },
        None => Seq::<ShortcutView>::empty(),
    });
    if depth < 64 || depth == 64 {
        traverse_children(&node.children, path, depth + 1, out);
    }
    if pushed {
        let ghost bp = path@;
        assert(string_views(bp) == p);
        assert(p.len() == path0.len() + 1);
        let _ = path.pop();
        assert(path@ =~= bp.drop_last());
        assert forall|i: int| 0 <= i < path0.len() implies string_views(path@)[i] == path0[i] by {
            assert(string_views(path@)[i] == path@[i]@);
            assert(path@[i] == bp[i]);
            assert(string_views(bp)[i] == bp[i]@);
        }
        assert(string_views(path@) =~= path0);
    }
}

/// Visits the children of a node, in order.
fn traverse_children(
    children: &Vec<MenuNode>,
    path: &mut Vec<String>,
    depth: usize,
    out: &mut Vec<ShortcutItem>,
)
    ensures
        string_views(final(path)@) == string_views(old(path)@),
        shortcut_views(final(out)@) == shortcut_views(old(out)@) + nodes_shortcuts(
            children@,
            string_views(old(path)@),
            depth as nat,
        ),
    decreases children@, 0nat,
{
    let ghost path0 = string_views(path@);
    let ghost out0 = shortcut_views(out@);
    let n = children.len();
    for i in 0..n
        invariant
            n == children@.len(),
            string_views(path@) == path0,
            shortcut_views(out@) == out0 + nodes_shortcuts(children@.take(i as int), path0, depth as nat),
    {
        assert(children@.take(i + 1).drop_last() =~= children@.take(i as int));
        assert(decreases_to!(children@ => children@[i as int]));
        traverse_menu(&children[i], path, depth, out);
        assert(out0 + nodes_shortcuts(children@.take(i + 1), path0, depth as nat) =~= out0
            + nodes_shortcuts(children@.take(i as int), path0, depth as nat) + node_shortcuts(
            children@[i as int],
            path0,
            depth as nat,
        ));
    }
    assert(children@.take(n as int) =~= children@);
}

/// The shortcuts of a menu bar whose top-level menus are `menus`, each
/// visited at depth 0 with an empty path.
pub fn collect_menu_shortcuts(menus: &Vec<MenuNode>) -> (r: Vec<ShortcutItem>)
    ensures
        shortcut_views(r@) == nodes_shortcuts(menus@, Seq::empty(), 0),
{
    let mut out: Vec<ShortcutItem> = Vec::new();
    let mut path: Vec<String> = Vec::new();
    assert(string_views(path@) =~= Seq::<Seq<char>>::empty());
    traverse_children(menus, &mut path, 0, &mut out);
    assert(shortcut_views(out@) =~= nodes_shortcuts(menus@, Seq::empty(), 0));
    out
}

/// What a system hot key holds, as values.
pub struct GlobalView {
    pub id: i64,
    pub name: Seq<char>,
    pub enabled: bool,
    pub modifiers: Seq<char>,
    pub key_code: i64,
}

impl View for GlobalShortcutItem {
    type V = GlobalView;

    open spec fn view(&self) -> GlobalView {
        GlobalView {
            id: self.id,
            name: self.name@,
            enabled: self.enabled,
            modifiers: self.modifiers@,
            key_code: self.key_code,
        }
    }
}

/// The views of a sequence of hot keys.
pub open spec fn global_views(v: Seq<GlobalShortcutItem>) -> Seq<GlobalView> {
    v.map_values(|g: GlobalShortcutItem| g@)
}

/// The hot key described by the preferences entry `key` => `item`: none
/// where the key is not an `i64`; it is enabled where `enabled` is a
/// non-zero integer, its key code is the second of the `value.parameters`
/// (-1 where absent) and its modifier mask the third (0 where absent).
pub open spec fn hotkey_entry(key: Seq<char>, item: JsonValue) -> Option<GlobalView> {
    match parse_signed(key, i64::MAX as nat) {
        None => None,
        Some(idv) => {
            let id = idv as i64;
            let params = as_array_spec(get_opt(get_spec(item, "value"@), "parameters"@));
            Some(
                GlobalView {
                    id: id,
                    name: hotkey_name(id),
                    enabled: match as_i64_spec(get_spec(item, "enabled"@)) {
                        Some(v) => v != 0,
                        None => false,
                    },
                    modifiers: global_modifier_symbols(
                        match as_i64_spec(index_spec(params, 2)) {
                            Some(v) => v,
                            None => 0i64,
                        },
                    ),
                    key_code: match as_i64_spec(index_spec(params, 1)) {
                        Some(v) => v,
                        None => -1i64,
                    },
                },
            )
        },
    }
}

/// The hot keys of the preferences entries, in their order.
pub open spec fn hotkey_entries(fields: Seq<(String, JsonValue)>) -> Seq<GlobalView>
    decreases fields.len(),
{
    if fields.len() == 0 {
        Seq::empty()
    } else {
        let rest = hotkey_entries(fields.drop_last());
        match hotkey_entry(fields.last().0@, fields.last().1) {
            Some(g) => rest.push(g),
            None => rest,
        }
    }
}

/// `x` placed into `s` after every element whose id is not greater.
pub open spec fn insert_by_id(s: Seq<GlobalView>, x: GlobalView) -> Seq<GlobalView>
    decreases s.len(),
{
    if s.len() == 0 {
        seq![x]
    } else if s.last().id <= x.id {
        s.push(x)
    } else {
        insert_by_id(s.drop_last(), x).push(s.last())
    }
}

/// `s` ordered by id, elements with equal ids keeping their order (what a
/// stable sort by id gives).
pub open spec fn sort_by_id(s: Seq<GlobalView>) -> Seq<GlobalView>
    decreases s.len(),
{
    if s.len() == 0 {
        Seq::empty()
    } else {
        insert_by_id(sort_by_id(s.drop_last()), s.last())
    }
}

proof fn lemma_insert_by_id(s: Seq<GlobalView>, x: GlobalView, j: int)
    requires
        0 <= j <= s.len(),
        forall|k: int| j <= k < s.len() ==> s[k].id > x.id,
        j == 0 || s[j - 1].id <= x.id,
    ensures
        insert_by_id(s, x) == s.insert(j, x),
    decreases s.len(),
{
    if s.len() == 0 {
        assert(s.insert(j, x) =~= seq![x]);
    } else if j == s.len() {
        assert(s.insert(j, x) =~= s.push(x));
    } else {
        lemma_insert_by_id(s.drop_last(), x, j);
        assert(s.insert(j, x) =~= s.drop_last().insert(j, x).push(s.last()));
    }
}

/// Places `x` into the ordered `r` after every element whose id is not
/// greater.
fn insert_hotkey(r: &mut Vec<GlobalShortcutItem>, x: GlobalShortcutItem)
    ensures
        global_views(final(r)@) == insert_by_id(global_views(old(r)@), x@),
{
    let ghost vs = global_views(r@);
    let mut j = r.len();
    while j > 0 && r[j - 1].id > x.id
        invariant
            j <= r@.len(),
            vs == global_views(r@),
            forall|k: int| j <= k < r@.len() ==> r@[k].id > x.id,
        decreases j,
    {
        j = j - 1;
    }
    proof {
        lemma_insert_by_id(vs, x@, j as int);
    }
    let ghost xv = x@;
    r.insert(j, x);
    assert(global_views(r@) =~= vs.insert(j as int, xv));
}

/// The hot key of one preferences entry, if the entry's key is an id.
fn hotkey_from_entry(key: &String, item: &JsonValue) -> (r: Option<GlobalShortcutItem>)
    ensures
        match r {
            Some(g) => hotkey_entry(key@, *item) == Some(g@),
            None => hotkey_entry(key@, *item).is_none(),
        },
{
    let id = match parse_i64(key.as_str()) {
        Some(v) => v,
        None => return None,
    };
    let enabled = match item.get("enabled") {
        Some(v) => match v.as_i64() {
            Some(e) => e != 0,
            None => false,
        },
        None => false,
    };
    let params: Option<&Vec<JsonValue>> = match item.get("value") {
        Some(v) => match v.get("parameters") {
            Some(p) => p.as_array(),
            None => None,
        },
        None => None,
    };
    let ghost pv = as_array_spec(get_opt(get_spec(*item, "value"@), "parameters"@));
    assert(match params {
        Some(p) => pv == Some(p@),
        None => pv.is_none(),
    });
    let key_code: i64 = match params {
        Some(p) => if p.len() > 1 {
            match p[1].as_i64() {
                Some(v) => v,
                None => -1,
            }
        } else {
            -1
        },
        None => -1,
    };
    let mask: i64 = match params {
        Some(p) => if p.len() > 2 {
            match p[2].as_i64() {
                Some(v) => v,
                None => 0,
            }
        } else {
            0
        },
        None => 0,
    };
    Some(
        GlobalShortcutItem {
            id,
            name: symbolic_hotkey_name(id),
            enabled,
            modifiers: global_modifiers_to_symbols(mask),
            key_code,
        },
    )
}

/// The system hot keys that the preferences (in their JSON form) describe,
/// ordered by id.
pub fn global_shortcuts_from_preferences(value: &JsonValue) -> (r: Result<
    Vec<GlobalShortcutItem>,
    ShortcutError,
>)
    ensures
        match get_spec(*value, "AppleSymbolicHotKeys"@) {
            Some(JsonValue::Object(fields)) => r matches Ok(items) && global_views(items@)
                == sort_by_id(hotkey_entries(fields@)),
            _ => r matches Err(ShortcutError::NoSymbolicHotKeys),
        },
{
    let fields = match value.get("AppleSymbolicHotKeys") {
        Some(h) => match h.as_object() {
            Some(f) => f,
            None => return Err(ShortcutError::NoSymbolicHotKeys),
        },
        None => return Err(ShortcutError::NoSymbolicHotKeys),
    };
    let mut out: Vec<GlobalShortcutItem> = Vec::new();
    let n = fields.len();
    for i in 0..n
        invariant
            n == fields@.len(),
            global_views(out@) == sort_by_id(hotkey_entries(fields@.take(i as int))),
    {
        assert(fields@.take(i + 1).drop_last() =~= fields@.take(i as int));
        assert(fields@.take(i + 1).last() == fields@[i as int]);
        let ghost prev = hotkey_entries(fields@.take(i as int));
        match hotkey_from_entry(&fields[i].0, &fields[i].1) {
            Some(g) => {
                assert(hotkey_entries(fields@.take(i + 1)) == prev.push(g@));
                assert(prev.push(g@).drop_last() =~= prev);
                assert(sort_by_id(prev.push(g@)) == insert_by_id(sort_by_id(prev), g@));
                insert_hotkey(&mut out, g);
            },
            None => {
                assert(hotkey_entries(fields@.take(i + 1)) == prev);
            },
        }
    }
    assert(fields@.take(n as int) =~= fields@);
    Ok(out)
}

/// The hot keys are in order of id.
pub open spec fn sorted_by_id(s: Seq<GlobalView>) -> bool {
    forall|i: int, j: int| 0 <= i < j < s.len() ==> s[i].id <= s[j].id
}

proof fn lemma_insert_by_id_sorted(s: Seq<GlobalView>, x: GlobalView)
    requires
        sorted_by_id(s),
    ensures
        sorted_by_id(insert_by_id(s, x)),
        insert_by_id(s, x).to_multiset() == s.to_multiset().insert(x),
    decreases s.len(),
{
    broadcast use vstd::seq_lib::to_multiset_build, vstd::seq_lib::to_multiset_contains;

    if s.len() == 0 {
        assert(seq![x] =~= Seq::<GlobalView>::empty().push(x));
    } else if s.last().id <= x.id {
    } else {
        let d = s.drop_last();
        assert(sorted_by_id(d));
        lemma_insert_by_id_sorted(d, x);
        let r = insert_by_id(d, x);
        assert forall|k: int| 0 <= k < r.len() implies r[k].id <= s.last().id by {
            assert(r.contains(r[k]));
            assert(r.to_multiset().count(r[k]) > 0);
            if r[k] != x {
                assert(d.to_multiset().count(r[k]) > 0);
                assert(d.contains(r[k]));
                let m = choose|m: int| 0 <= m < d.len() && d[m] == r[k];
                assert(s[m] == d[m]);
            }
        }
        assert(d.push(s.last()) =~= s);
    }
}

/// The system hot keys are reported in order of id, and sorting neither
/// drops nor adds one: the result holds exactly the entries that the
/// preferences describe.
pub proof fn law_hotkeys_sorted_and_complete(entries: Seq<GlobalView>)
    ensures
        sorted_by_id(sort_by_id(entries)),
        sort_by_id(entries).to_multiset() == entries.to_multiset(),
    decreases entries.len(),
{
    broadcast use vstd::seq_lib::to_multiset_build;

    if entries.len() > 0 {
        law_hotkeys_sorted_and_complete(entries.drop_last());
        lemma_insert_by_id_sorted(sort_by_id(entries.drop_last()), entries.last());
        assert(entries.drop_last().push(entries.last()) =~= entries);
    } else {
        broadcast use vstd::seq_lib::to_multiset_len, vstd::multiset::lemma_multiset_empty_len;
        assert(entries.to_multiset().len() == 0);
        assert(sort_by_id(entries).to_multiset().len() == 0);
    }
}

} // verus!
