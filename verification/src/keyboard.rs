//! Key names as the keyboard tools take them: the named keys and single
//! characters that `press_key` accepts, and the modifier names of `hotkey`.
use vstd::prelude::*;
use crate::json::str_eq;
use crate::text::{ascii_lowercase, ascii_lowercase_chars, chars_of, concat2, string_of};

verus! {

/// A key that can be pressed.
pub enum KeyName {
    Enter,
    Tab,
    Escape,
    Space,
    Backspace,
    Delete,
    Up,
    Down,
    Left,
    Right,
    Home,
    End,
    PageUp,
    PageDown,
    /// A function key, `F1` to `F12`.
    Function(u8),
    /// The key that types this character.
    Character(char),
}

/// A modifier key held during a combination.
pub enum ModifierKey {
    Command,
    Control,
    Shift,
    Option,
}

/// The function key that a lower-case name such as `f5` names.
pub open spec fn function_key(n: Seq<char>) -> Option<u8> {
    if n == "f1"@ {
        Some(1u8)
    } else if n == "f2"@ {
        Some(2u8)
    } else if n == "f3"@ {
        Some(3u8)
    } else if n == "f4"@ {
        Some(4u8)
    } else if n == "f5"@ {
        Some(5u8)
    } else if n == "f6"@ {
        Some(6u8)
    } else if n == "f7"@ {
        Some(7u8)
    } else if n == "f8"@ {
        Some(8u8)
    } else if n == "f9"@ {
        Some(9u8)
    } else if n == "f10"@ {
        Some(10u8)
    } else if n == "f11"@ {
        Some(11u8)
    } else if n == "f12"@ {
        Some(12u8)
    } else {
        None
    }
}

/// The key that a name gives: the named keys (in any ASCII case) `enter`,
/// `tab`, `escape`, `space`, `backspace`, `delete`, the arrows `up`,
/// `down`, `left`, `right`, `home`, `end`, `pageup`, `pagedown` and `f1`
/// to `f12`; otherwise a name of one character is that character's key.
pub open spec fn key_named(name: Seq<char>) -> Option<KeyName> {
    let n = ascii_lowercase(name);
    if n == "enter"@ {
        Some(KeyName::Enter)
    } else if n == "tab"@ {
        Some(KeyName::Tab)
    } else if n == "escape"@ {
        Some(KeyName::Escape)
    } else if n == "space"@ {
        Some(KeyName::Space)
    } else if n == "backspace"@ {
        Some(KeyName::Backspace)
    } else if n == "delete"@ {
        Some(KeyName::Delete)
    } else if n == "up"@ {
        Some(KeyName::Up)
    } else if n == "down"@ {
        Some(KeyName::Down)
    } else if n == "left"@ {
        Some(KeyName::Left)
    } else if n == "right"@ {
        Some(KeyName::Right)
    } else if n == "home"@ {
        Some(KeyName::Home)
    } else if n == "end"@ {
        Some(KeyName::End)
    } else if n == "pageup"@ {
        Some(KeyName::PageUp)
    } else if n == "pagedown"@ {
        Some(KeyName::PageDown)
    } else if function_key(n) is Some {
        Some(KeyName::Function(function_key(n)->0))
    } else if name.len() == 1 {
        Some(KeyName::Character(name[0]))
    } else {
        None
    }
}

/// The modifier that a name gives (in any ASCII case): `cmd` or `command`,
/// `ctrl` or `control`, `shift`, `alt` or `option`.
pub open spec fn modifier_named(name: Seq<char>) -> Option<ModifierKey> {
    let n = ascii_lowercase(name);
    if n == "cmd"@ || n == "command"@ {
        Some(ModifierKey::Command)
    } else if n == "ctrl"@ || n == "control"@ {
        Some(ModifierKey::Control)
    } else if n == "shift"@ {
        Some(ModifierKey::Shift)
    } else if n == "alt"@ || n == "option"@ {
        Some(ModifierKey::Option)
    } else {
        None
    }
}

/// The name of function key `n`.
pub open spec fn function_key_label(n: u8) -> Seq<char> {
    if n == 1 {
        "f1"@
    } else if n == 2 {
        "f2"@
    } else if n == 3 {
        "f3"@
    } else if n == 4 {
        "f4"@
    } else if n == 5 {
        "f5"@
    } else if n == 6 {
        "f6"@
    } else if n == 7 {
        "f7"@
    } else if n == 8 {
        "f8"@
    } else if n == 9 {
        "f9"@
    } else if n == 10 {
        "f10"@
    } else if n == 11 {
        "f11"@
    } else if n == 12 {
        "f12"@
    } else {
        Seq::empty()
    }
}

/// The lower-case name of a named key.
pub open spec fn key_label(k: KeyName) -> Seq<char> {
    match k {
        KeyName::Enter => "enter"@,
        KeyName::Tab => "tab"@,
        KeyName::Escape => "escape"@,
        KeyName::Space => "space"@,
        KeyName::Backspace => "backspace"@,
        KeyName::Delete => "delete"@,
        KeyName::Up => "up"@,
        KeyName::Down => "down"@,
        KeyName::Left => "left"@,
        KeyName::Right => "right"@,
        KeyName::Home => "home"@,
        KeyName::End => "end"@,
        KeyName::PageUp => "pageup"@,
        KeyName::PageDown => "pagedown"@,
        KeyName::Function(n) => function_key_label(n),
        KeyName::Character(c) => seq![c],
    }
}

/// A key is only ever resolved from its own name: a name that resolves to
/// a named or function key is that key's name in some ASCII case, and a
/// name that resolves to a character's key is that character alone. So
/// two names that resolve to the same key differ at most in case.
pub proof fn law_key_resolves_from_its_own_name(name: Seq<char>)
    requires
        key_named(name) is Some,
    ensures
        match key_named(name)->0 {
            KeyName::Character(c) => name == seq![c],
            k => ascii_lowercase(name) == key_label(k),
        },
{
    if key_named(name)->0 is Character {
        assert(name =~= seq![name[0]]);
    }
}

/// Each named key is resolved from its name, in any ASCII case: `enter`
/// gives Enter, `backspace` Backspace, `delete` Delete, `f5` F5, and so on
/// for every named key and the function keys F1 to F12.
pub proof fn law_named_keys_resolve_to_themselves(name: Seq<char>, k: KeyName)
    requires
        !(k is Character),
        k matches KeyName::Function(n) ==> 1 <= n <= 12,
        ascii_lowercase(name) == key_label(k),
    ensures
        key_named(name) == Some(k),
{
    reveal_strlit("enter");
    reveal_strlit("tab");
    reveal_strlit("escape");
    reveal_strlit("space");
    reveal_strlit("backspace");
    reveal_strlit("delete");
    reveal_strlit("up");
    reveal_strlit("down");
    reveal_strlit("left");
    reveal_strlit("right");
    reveal_strlit("home");
    reveal_strlit("end");
    reveal_strlit("pageup");
    reveal_strlit("pagedown");
    assert("enter"@.len() == 5 && "enter"@[0] == 'e');
    assert("tab"@.len() == 3 && "tab"@[0] == 't');
    assert("escape"@.len() == 6 && "escape"@[0] == 'e');
    assert("space"@.len() == 5 && "space"@[0] == 's');
    assert("backspace"@.len() == 9 && "backspace"@[0] == 'b');
    assert("delete"@.len() == 6 && "delete"@[0] == 'd');
    assert("up"@.len() == 2 && "up"@[0] == 'u');
    assert("down"@.len() == 4 && "down"@[0] == 'd');
    assert("left"@.len() == 4 && "left"@[0] == 'l');
    assert("right"@.len() == 5 && "right"@[0] == 'r');
    assert("home"@.len() == 4 && "home"@[0] == 'h');
    assert("end"@.len() == 3 && "end"@[0] == 'e');
    assert("pageup"@.len() == 6 && "pageup"@[0] == 'p');
    assert("pagedown"@.len() == 8 && "pagedown"@[0] == 'p');
    reveal_strlit("f1");
    assert("f1"@.len() == 2 && "f1"@[0] == 'f' && "f1"@[1] == '1');
    reveal_strlit("f2");
    assert("f2"@.len() == 2 && "f2"@[0] == 'f' && "f2"@[1] == '2');
    reveal_strlit("f3");
    assert("f3"@.len() == 2 && "f3"@[0] == 'f' && "f3"@[1] == '3');
    reveal_strlit("f4");
    assert("f4"@.len() == 2 && "f4"@[0] == 'f' && "f4"@[1] == '4');
    reveal_strlit("f5");
    assert("f5"@.len() == 2 && "f5"@[0] == 'f' && "f5"@[1] == '5');
    reveal_strlit("f6");
    assert("f6"@.len() == 2 && "f6"@[0] == 'f' && "f6"@[1] == '6');
    reveal_strlit("f7");
    assert("f7"@.len() == 2 && "f7"@[0] == 'f' && "f7"@[1] == '7');
    reveal_strlit("f8");
    assert("f8"@.len() == 2 && "f8"@[0] == 'f' && "f8"@[1] == '8');
    reveal_strlit("f9");
    assert("f9"@.len() == 2 && "f9"@[0] == 'f' && "f9"@[1] == '9');
    reveal_strlit("f10");
    assert("f10"@.len() == 3 && "f10"@[0] == 'f' && "f10"@[1] == '1');
    reveal_strlit("f11");
    assert("f11"@.len() == 3 && "f11"@[0] == 'f' && "f11"@[1] == '1');
    reveal_strlit("f12");
    assert("f12"@.len() == 3 && "f12"@[0] == 'f' && "f12"@[1] == '1');
    assert("f10"@[2] == '0' && "f11"@[2] == '1' && "f12"@[2] == '2');
}

/// A modifier is only ever resolved from one of its own names, in some
/// ASCII case: Command from `cmd` or `command`, Control from `ctrl` or
/// `control`, Shift from `shift`, Option from `alt` or `option`.
pub proof fn law_modifier_resolves_from_its_own_name(name: Seq<char>)
    requires
        modifier_named(name) is Some,
    ensures
        match modifier_named(name)->0 {
            ModifierKey::Command => ascii_lowercase(name) == "cmd"@ || ascii_lowercase(name)
                == "command"@,
            ModifierKey::Control => ascii_lowercase(name) == "ctrl"@ || ascii_lowercase(name)
                == "control"@,
            ModifierKey::Shift => ascii_lowercase(name) == "shift"@,
            ModifierKey::Option => ascii_lowercase(name) == "alt"@ || ascii_lowercase(name)
                == "option"@,
        },
{
}

/// The name in ASCII lower case.
fn lower(name: &str) -> (r: String)
    ensures
        r@ == ascii_lowercase(name@),
{
    string_of(&ascii_lowercase_chars(&chars_of(name)))
}

/// The key that `name` names, or the message refusing it.
pub fn key_from_name(name: &str) -> (r: Result<KeyName, String>)
    ensures
        match key_named(name@) {
            Some(k) => r == Ok::<KeyName, String>(k),
            None => r matches Err(m) && m@ == "不支持的按键: "@ + name@,
        },
{
    let n = lower(name);
    let is = |lit: &str| -> (b: bool)
        ensures
            b == (n@ == lit@),
        { str_eq(n.as_str(), lit) };
    if is("enter") {
        Ok(KeyName::Enter)
    } else if is("tab") {
        Ok(KeyName::Tab)
    } else if is("escape") {
        Ok(KeyName::Escape)
    } else if is("space") {
        Ok(KeyName::Space)
    } else if is("backspace") {
        Ok(KeyName::Backspace)
    } else if is("delete") {
        Ok(KeyName::Delete)
    } else if is("up") {
        Ok(KeyName::Up)
    } else if is("down") {
        Ok(KeyName::Down)
    } else if is("left") {
        Ok(KeyName::Left)
    } else if is("right") {
        Ok(KeyName::Right)
    } else if is("home") {
        Ok(KeyName::Home)
    } else if is("end") {
        Ok(KeyName::End)
    } else if is("pageup") {
        Ok(KeyName::PageUp)
    } else if is("pagedown") {
        Ok(KeyName::PageDown)
    } else if is("f1") {
        Ok(KeyName::Function(1))
    } else if is("f2") {
        Ok(KeyName::Function(2))
    } else if is("f3") {
        Ok(KeyName::Function(3))
    } else if is("f4") {
        Ok(KeyName::Function(4))
    } else if is("f5") {
        Ok(KeyName::Function(5))
    } else if is("f6") {
        Ok(KeyName::Function(6))
    } else if is("f7") {
        Ok(KeyName::Function(7))
    } else if is("f8") {
        Ok(KeyName::Function(8))
    } else if is("f9") {
        Ok(KeyName::Function(9))
    } else if is("f10") {
        Ok(KeyName::Function(10))
    } else if is("f11") {
        Ok(KeyName::Function(11))
    } else if is("f12") {
        Ok(KeyName::Function(12))
    } else {
        let cs = chars_of(name);
        if cs.len() == 1 {
            Ok(KeyName::Character(cs[0]))
        } else {
            Err(concat2("不支持的按键: ", name))
        }
    }
}

/// The modifier that `name` names, or the message refusing it.
pub fn modifier_from_name(name: &str) -> (r: Result<ModifierKey, String>)
    ensures
        match modifier_named(name@) {
            Some(m) => r == Ok::<ModifierKey, String>(m),
            None => r matches Err(e) && e@ == "不支持的修饰键: "@ + name@,
        },
{
    let n = lower(name);
    let is = |lit: &str| -> (b: bool)
        ensures
            b == (n@ == lit@),
        { str_eq(n.as_str(), lit) };
    if is("cmd") || is("command") {
        Ok(ModifierKey::Command)
    } else if is("ctrl") || is("control") {
        Ok(ModifierKey::Control)
    } else if is("shift") {
        Ok(ModifierKey::Shift)
    } else if is("alt") || is("option") {
        Ok(ModifierKey::Option)
    } else {
        Err(concat2("不支持的修饰键: ", name))
    }
}

/// The modifiers of a combination, in order: all of them where every name
/// is known, else the first unknown name.
pub open spec fn modifiers_named(names: Seq<Seq<char>>) -> Result<Seq<ModifierKey>, Seq<char>>
    decreases names.len(),
{
    if names.len() == 0 {
        Ok(Seq::empty())
    } else {
        match modifiers_named(names.drop_last()) {
            Err(n) => Err(n),
            Ok(ms) => match modifier_named(names.last()) {
                Some(m) => Ok(ms.push(m)),
                None => Err(names.last()),
            },
        }
    }
}

/// The modifiers of a combination, or the message refusing the first
/// unknown one.
pub fn modifiers_from_names(names: &Vec<String>) -> (r: Result<Vec<ModifierKey>, String>)
    ensures
        match modifiers_named(crate::text::string_views(names@)) {
            Ok(ms) => r matches Ok(v) && v@ == ms,
            Err(n) => r matches Err(e) && e@ == "不支持的修饰键: "@ + n,
        },
{
    let mut out: Vec<ModifierKey> = Vec::new();
    let n = names.len();
    for i in 0..n
        invariant
            n == names@.len(),
            modifiers_named(crate::text::string_views(names@.take(i as int))) == Ok::<
                Seq<ModifierKey>,
                Seq<char>,
            >(out@),
    {
        assert(crate::text::string_views(names@.take(i + 1)).drop_last() =~= crate::text::string_views(
            names@.take(i as int),
        ));
        assert(crate::text::string_views(names@.take(i + 1)).last() == names@[i as int]@);
        match modifier_from_name(names[i].as_str()) {
            Ok(m) => out.push(m),
            Err(e) => {
                proof {
                    let sv = crate::text::string_views(names@);
                    assert(crate::text::string_views(names@.take(i + 1)) =~= sv.take(i + 1));
                    assert(modifiers_named(sv.take(i + 1)) == Err::<Seq<ModifierKey>, Seq<char>>(names@[i as int]@));
                    lemma_first_unknown_stays(sv, i + 1);
                }
                return Err(e);
            },
        }
    }
    assert(names@.take(n as int) =~= names@);
    Ok(out)
}

proof fn lemma_first_unknown_stays(names: Seq<Seq<char>>, k: int)
    requires
        0 <= k <= names.len(),
        modifiers_named(names.take(k)) is Err,
    ensures
        modifiers_named(names) == modifiers_named(names.take(k)),
    decreases names.len() - k,
{
    if k < names.len() {
        assert(names.take(k + 1).drop_last() =~= names.take(k));
        lemma_first_unknown_stays(names, k + 1);
    } else {
        assert(names.take(k) =~= names);
    }
}

} // verus!
