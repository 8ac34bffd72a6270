//! The tools that the model may call: what each one tells the model about
//! itself (name, description, JSON schema of its arguments), its arguments,
//! and the reply it gives once its action has been carried out.
use vstd::prelude::*;
use crate::conversation::{has_keys, has_str, jstr, object1, object2, object3};
use crate::json::{as_array_spec, as_str_spec, get_spec, json_string_array, JsonValue};
use crate::text::{concat2, join_strings, join_with, string_views};

verus! {

/// A tool failed; the text says why.
pub struct ToolError(pub String);

/// What a tool tells the model about itself.
pub struct ToolDefinition {
    pub name: String,
    pub description: String,
    pub parameters: JsonValue,
}

/// `serde_json`'s error, carried through unread.
#[verifier::external_type_specification]
#[verifier::external_body]
pub struct ExSerdeJsonError(serde_json::Error);

/// Calls `serde_json::to_string` on a list of strings. It writes into a
/// byte vector with the compact formatter, and a list of strings has no map
/// key that could make it fail, so it succeeds, with the compact JSON array
/// of those strings (escaped as its escape table says).
#[verifier::external_body]
fn strings_to_json(items: &Vec<String>) -> (r: Result<String, serde_json::Error>)
    ensures
        r is Ok,
        r matches Ok(s) ==> s@ == json_string_array(string_views(items@)),
{
    serde_json::to_string(items)
}

/// The message of a `serde_json` error (its `Display` text); nothing is
/// stated of the text.
#[verifier::external_body]
fn serde_error_text(e: &serde_json::Error) -> String {
    e.to_string()
}

/// A property of an argument schema: its JSON type and what it means.
pub open spec fn is_property(p: JsonValue, ty: Seq<char>, description: Seq<char>) -> bool {
    has_keys(p, seq!["type"@, "description"@]) && has_str(p, "type"@, ty) && has_str(
        p,
        "description"@,
        description,
    )
}

/// The schema of an object argument: `properties` has exactly the entries
/// `names`, in order, the one named `names[i]` being `props[i]`, and all of
/// them are required, in the same order.
pub open spec fn is_object_schema(v: JsonValue, names: Seq<Seq<char>>, props: Seq<JsonValue>) -> bool {
    &&& names.len() == props.len()
    &&& has_keys(v, seq!["type"@, "properties"@, "required"@])
    &&& has_str(v, "type"@, "object"@)
    &&& match get_spec(v, "properties"@) {
        Some(p) => has_keys(p, names) && forall|i: int|
            0 <= i < names.len() ==> get_spec(p, #[trigger] names[i]) == Some(props[i]),
        None => false,
    }
    &&& match as_array_spec(get_spec(v, "required"@)) {
        Some(items) => items.len() == names.len() && forall|i: int|
            0 <= i < names.len() ==> as_str_spec(Some(#[trigger] items[i])) == Some(names[i]),
        None => false,
    }
}

/// The schema of one required string argument `name`.
pub open spec fn is_string_arg_schema(v: JsonValue, name: Seq<char>, description: Seq<char>) -> bool {
    exists|p: JsonValue| is_object_schema(v, seq![name], seq![p]) && #[trigger] is_property(
        p,
        "string"@,
        description,
    )
}

/// The schema of an argument list that is empty.
pub open spec fn is_empty_schema(v: JsonValue) -> bool {
    is_object_schema(v, Seq::empty(), Seq::empty())
}

/// The schema of the `hotkey` arguments: a list of modifier names and a key.
pub open spec fn is_hotkey_schema(v: JsonValue) -> bool {
    exists|m: JsonValue, k: JsonValue|
        #![trigger is_property(k, "string"@, "主按键"@), get_spec(m, "items"@)]
        is_object_schema(v, seq!["modifiers"@, "key"@], seq![m, k]) && is_property(
            k,
            "string"@,
            "主按键"@,
        ) && has_keys(m, seq!["type"@, "items"@, "description"@]) && has_str(m, "type"@, "array"@)
            && has_str(m, "description"@, "修饰键列表"@) && match get_spec(m, "items"@) {
            Some(it) => has_keys(it, seq!["type"@]) && has_str(it, "type"@, "string"@),
            None => false,
        }
}

/// A property with a JSON type and a description.
fn property(ty: &str, description: &str) -> (p: JsonValue)
    ensures
        is_property(p, ty@, description@),
{
    proof {
        reveal_strlit("type");
        reveal_strlit("description");
    }
    assert("type"@.len() != "description"@.len());
    object2("type", jstr(String::from_str(ty)), "description", jstr(String::from_str(description)))
}

/// The JSON strings of `names`, in order.
fn name_list(names: &Vec<&str>) -> (v: Vec<JsonValue>)
    ensures
        v@.len() == names@.len(),
        forall|i: int| 0 <= i < names@.len() ==> as_str_spec(Some(#[trigger] v@[i])) == Some(names@[i]@),
{
    let mut v: Vec<JsonValue> = Vec::new();
    for i in 0..names.len()
        invariant
            v@.len() == i,
            forall|j: int| 0 <= j < i ==> as_str_spec(Some(#[trigger] v@[j])) == Some(names@[j]@),
    {
        v.push(jstr(String::from_str(names[i])));
    }
    v
}

/// The schema object with the given properties and required names.
fn object_schema(properties: JsonValue, required: Vec<JsonValue>) -> (v: JsonValue)
    ensures
        has_keys(v, seq!["type"@, "properties"@, "required"@]),
        has_str(v, "type"@, "object"@),
        get_spec(v, "properties"@) == Some(properties),
        as_array_spec(get_spec(v, "required"@)) == Some(required@),
{
    proof {
        reveal_strlit("type");
        reveal_strlit("properties");
        reveal_strlit("required");
    }
    assert("properties"@[0] != "required"@[0]);
    object3(
        "type",
        jstr(String::from_str("object")),
        "properties",
        properties,
        "required",
        JsonValue::Array(required),
    )
}

/// The schema of one required string argument.
fn string_arg_schema(name: &str, description: &str) -> (v: JsonValue)
    ensures
        is_string_arg_schema(v, name@, description@),
{
    let p = property("string", description);
    let ghost gp = p;
    let props = object1(name, p);
    let mut names: Vec<&str> = Vec::new();
    names.push(name);
    let req = name_list(&names);
    let v = object_schema(props, req);
    assert(is_object_schema(v, seq![name@], seq![gp]));
    v
}

/// The schema of an argument list that is empty.
fn empty_schema() -> (v: JsonValue)
    ensures
        is_empty_schema(v),
{
    object_schema(JsonValue::Object(Vec::new()), Vec::new())
}

/// The `type_text` tool: types a text on the keyboard.
pub struct TypeTextTool;

/// Arguments of `type_text`: the text to type.
pub struct TypeTextArgs {
    pub text: String,
}

impl TypeTextTool {
    /// The tool's name.
    pub fn name(&self) -> (r: &'static str)
        ensures
            r@ == "type_text"@,
    {
        "type_text"
    }

    /// What the tool tells the model about itself.
    pub fn definition(&self) -> (d: ToolDefinition)
        ensures
            d.name@ == "type_text"@,
            d.description@ == "模拟键盘输入指定文本"@,
            is_string_arg_schema(d.parameters, "text"@, "要输入的文本"@),
    {
        ToolDefinition {
            name: String::from_str("type_text"),
            description: String::from_str("模拟键盘输入指定文本"),
            parameters: string_arg_schema("text", "要输入的文本"),
        }
    }

    /// The reply once the text was typed, or the failure that typing gave.
    pub fn call(&self, args: &TypeTextArgs, typed: Result<(), String>) -> (r: Result<String, ToolError>)
        ensures
            typed is Ok ==> (r matches Ok(s) && s@ == "已输入文本: "@ + args.text@),
            typed matches Err(e) ==> (r matches Err(ToolError(m)) && m == e),
    {
        match typed {
            Ok(()) => Ok(concat2("已输入文本: ", args.text.as_str())),
            Err(e) => Err(ToolError(e)),
        }
    }
}

/// The `press_key` tool: presses and releases one key.
pub struct PressKeyTool;

/// Arguments of `press_key`: the key to press.
pub struct PressKeyArgs {
    pub key: String,
}

/// What `press_key` tells the model about itself.
pub open spec fn press_key_description() -> Seq<char> {
    "模拟按下并释放单个按键。支持: enter, tab, escape, space, backspace, delete, up, down, left, right, home, end, pageup, pagedown, f1-f12，以及单个字符"@
}

impl PressKeyTool {
    /// The tool's name.
    pub fn name(&self) -> (r: &'static str)
        ensures
            r@ == "press_key"@,
    {
        "press_key"
    }

    /// What the tool tells the model about itself.
    pub fn definition(&self) -> (d: ToolDefinition)
        ensures
            d.name@ == "press_key"@,
            d.description@ == press_key_description(),
            is_string_arg_schema(d.parameters, "key"@, "按键名称"@),
    {
        ToolDefinition {
            name: String::from_str("press_key"),
            description: String::from_str(
                "模拟按下并释放单个按键。支持: enter, tab, escape, space, backspace, delete, up, down, left, right, home, end, pageup, pagedown, f1-f12，以及单个字符",
            ),
            parameters: string_arg_schema("key", "按键名称"),
        }
    }

    /// The reply once the key was pressed, or the failure that pressing gave.
    pub fn call(&self, args: &PressKeyArgs, pressed: Result<(), String>) -> (r: Result<String, ToolError>)
        ensures
            pressed is Ok ==> (r matches Ok(s) && s@ == "已按下按键: "@ + args.key@),
            pressed matches Err(e) ==> (r matches Err(ToolError(m)) && m == e),
    {
        match pressed {
            Ok(()) => Ok(concat2("已按下按键: ", args.key.as_str())),
            Err(e) => Err(ToolError(e)),
        }
    }
}

/// The `hotkey` tool: presses a key while holding modifier keys.
pub struct HotkeyTool;

/// Arguments of `hotkey`: the modifier keys held and the main key.
pub struct HotkeyArgs {
    pub modifiers: Vec<String>,
    pub key: String,
}

/// What `hotkey` tells the model about itself.
pub open spec fn hotkey_description() -> Seq<char> {
    "模拟组合键操作。modifiers 支持: cmd/command, ctrl/control, shift, alt/option。例如复制是 modifiers=[\"cmd\"], key=\"c\""@
}

impl HotkeyTool {
    /// The tool's name.
    pub fn name(&self) -> (r: &'static str)
        ensures
            r@ == "hotkey"@,
    {
        "hotkey"
    }

    /// What the tool tells the model about itself.
    pub fn definition(&self) -> (d: ToolDefinition)
        ensures
            d.name@ == "hotkey"@,
            d.description@ == hotkey_description(),
            is_hotkey_schema(d.parameters),
    {
        proof {
            reveal_strlit("type");
            reveal_strlit("items");
            reveal_strlit("description");
            reveal_strlit("modifiers");
            reveal_strlit("key");
        }
        let item = object1("type", jstr(String::from_str("string")));
        assert("items"@[0] != "description"@[0]);
        let m = object3(
            "type",
            jstr(String::from_str("array")),
            "items",
            item,
            "description",
            jstr(String::from_str("修饰键列表")),
        );
        let k = property("string", "主按键");
        let ghost (gm, gk) = (m, k);
        assert("modifiers"@.len() != "key"@.len());
        let props = object2("modifiers", m, "key", k);
        let mut names: Vec<&str> = Vec::new();
        names.push("modifiers");
        names.push("key");
        let req = name_list(&names);
        let parameters = object_schema(props, req);
        assert(is_object_schema(parameters, seq!["modifiers"@, "key"@], seq![gm, gk]));
        ToolDefinition {
            name: String::from_str("hotkey"),
            description: String::from_str(
                "模拟组合键操作。modifiers 支持: cmd/command, ctrl/control, shift, alt/option。例如复制是 modifiers=[\"cmd\"], key=\"c\"",
            ),
            parameters,
        }
    }

    /// The reply once the combination was pressed (the modifiers joined by
    /// `+`, then ` + ` and the key), or the failure that pressing gave.
    pub fn call(&self, args: &HotkeyArgs, pressed: Result<(), String>) -> (r: Result<String, ToolError>)
        ensures
            pressed is Ok ==> (r matches Ok(s) && s@ == "已执行组合键: "@ + join_with(
                string_views(args.modifiers@),
                "+"@,
            ) + " + "@ + args.key@),
            pressed matches Err(e) ==> (r matches Err(ToolError(m)) && m == e),
    {
        match pressed {
            Ok(()) => {
                let mods = join_strings(&args.modifiers, "+");
                let head = concat2("已执行组合键: ", mods.as_str());
                let mid = concat2(head.as_str(), " + ");
                Ok(concat2(mid.as_str(), args.key.as_str()))
            },
            Err(e) => Err(ToolError(e)),
        }
    }
}

/// The `open_application` tool.
pub struct OpenApplicationTool;

/// Arguments of `open_application`.
pub struct OpenApplicationArgs {
    pub app_name: String,
}

impl OpenApplicationTool {
    /// The tool's name.
    pub fn name(&self) -> (r: &'static str)
        ensures
            r@ == "open_application"@,
    {
        "open_application"
    }

    /// What the tool tells the model about itself.
    pub fn definition(&self) -> (d: ToolDefinition)
        ensures
            d.name@ == "open_application"@,
            d.description@ == "打开指定的 macOS 应用程序"@,
            is_string_arg_schema(d.parameters, "app_name"@, "应用程序名称"@),
    {
        ToolDefinition {
            name: String::from_str("open_application"),
            description: String::from_str("打开指定的 macOS 应用程序"),
            parameters: string_arg_schema("app_name", "应用程序名称"),
        }
    }

    /// The reply once the application was opened, or the failure that
    /// opening gave.
    pub fn call(&self, args: &OpenApplicationArgs, opened: Result<(), String>) -> (r: Result<String, ToolError>)
        ensures
            opened is Ok ==> (r matches Ok(s) && s@ == "已打开应用: "@ + args.app_name@),
            opened matches Err(e) ==> (r matches Err(ToolError(m)) && m == e),
    {
        match opened {
            Ok(()) => Ok(concat2("已打开应用: ", args.app_name.as_str())),
            Err(e) => Err(ToolError(e)),
        }
    }
}

/// The `close_application` tool.
pub struct CloseApplicationTool;

/// Arguments of `close_application`.
pub struct CloseApplicationArgs {
    pub app_name: String,
}

impl CloseApplicationTool {
    /// The tool's name.
    pub fn name(&self) -> (r: &'static str)
        ensures
            r@ == "close_application"@,
    {
        "close_application"
    }

    /// What the tool tells the model about itself.
    pub fn definition(&self) -> (d: ToolDefinition)
        ensures
            d.name@ == "close_application"@,
            d.description@ == "关闭指定的应用程序"@,
            is_string_arg_schema(d.parameters, "app_name"@, "要关闭的应用程序名称"@),
    {
        ToolDefinition {
            name: String::from_str("close_application"),
            description: String::from_str("关闭指定的应用程序"),
            parameters: string_arg_schema("app_name", "要关闭的应用程序名称"),
        }
    }

    /// The reply once the application was closed, or the failure that
    /// closing gave.
    pub fn call(&self, args: &CloseApplicationArgs, closed: Result<(), String>) -> (r: Result<String, ToolError>)
        ensures
            closed is Ok ==> (r matches Ok(s) && s@ == "已关闭应用: "@ + args.app_name@),
            closed matches Err(e) ==> (r matches Err(ToolError(m)) && m == e),
    {
        match closed {
            Ok(()) => Ok(concat2("已关闭应用: ", args.app_name.as_str())),
            Err(e) => Err(ToolError(e)),
        }
    }
}

/// The `focus_application` tool.
pub struct FocusApplicationTool;

/// Arguments of `focus_application`.
pub struct FocusApplicationArgs {
    pub app_name: String,
}

impl FocusApplicationTool {
    /// The tool's name.
    pub fn name(&self) -> (r: &'static str)
        ensures
            r@ == "focus_application"@,
    {
        "focus_application"
    }

    /// What the tool tells the model about itself.
    pub fn definition(&self) -> (d: ToolDefinition)
        ensures
            d.name@ == "focus_application"@,
            d.description@ == "将指定应用程序切换到前台并聚焦"@,
            is_string_arg_schema(d.parameters, "app_name"@, "应用程序名称"@),
    {
        ToolDefinition {
            name: String::from_str("focus_application"),
            description: String::from_str("将指定应用程序切换到前台并聚焦"),
            parameters: string_arg_schema("app_name", "应用程序名称"),
        }
    }

    /// The reply once the application has the focus, or the failure that
    /// focusing gave.
    pub fn call(&self, args: &FocusApplicationArgs, focused: Result<(), String>) -> (r: Result<String, ToolError>)
        ensures
            focused is Ok ==> (r matches Ok(s) && s@ == "已聚焦应用: "@ + args.app_name@),
            focused matches Err(e) ==> (r matches Err(ToolError(m)) && m == e),
    {
        match focused {
            Ok(()) => Ok(concat2("已聚焦应用: ", args.app_name.as_str())),
            Err(e) => Err(ToolError(e)),
        }
    }
}

/// The reply of a listing tool: the names as a JSON array, or the failure
/// of the listing or of writing the JSON.
fn listing_reply(listed: Result<Vec<String>, String>) -> (r: Result<String, ToolError>)
    ensures
        listed matches Ok(apps) ==> (r matches Ok(s) && s@ == json_string_array(string_views(apps@))),
        listed matches Err(e) ==> (r matches Err(ToolError(m)) && m == e),
{
    match listed {
        Ok(apps) => match strings_to_json(&apps) {
            Ok(s) => Ok(s),
            Err(e) => Err(ToolError(serde_error_text(&e))),
        },
        Err(e) => Err(ToolError(e)),
    }
}

/// The `list_applications` tool.
pub struct ListApplicationsTool;

/// Arguments of `list_applications` (there are none).
pub struct ListApplicationsArgs {}

impl ListApplicationsTool {
    /// The tool's name.
    pub fn name(&self) -> (r: &'static str)
        ensures
            r@ == "list_applications"@,
    {
        "list_applications"
    }

    /// What the tool tells the model about itself.
    pub fn definition(&self) -> (d: ToolDefinition)
        ensures
            d.name@ == "list_applications"@,
            d.description@ == "列出系统中已安装的应用程序"@,
            is_empty_schema(d.parameters),
    {
        ToolDefinition {
            name: String::from_str("list_applications"),
            description: String::from_str("列出系统中已安装的应用程序"),
            parameters: empty_schema(),
        }
    }

    /// The reply to a listing of the installed applications: their names
    /// as a JSON array, or the failure of the listing.
    pub fn call(&self, args: &ListApplicationsArgs, listed: Result<Vec<String>, String>) -> (r: Result<String, ToolError>)
        ensures
            listed matches Ok(apps) ==> (r matches Ok(s) && s@ == json_string_array(string_views(apps@))),
            listed matches Err(e) ==> (r matches Err(ToolError(m)) && m == e),
    {
        listing_reply(listed)
    }
}

/// The `list_running_applications` tool.
pub struct ListRunningApplicationsTool;

/// Arguments of `list_running_applications` (there are none).
pub struct ListRunningApplicationsArgs {}

impl ListRunningApplicationsTool {
    /// The tool's name.
    pub fn name(&self) -> (r: &'static str)
        ensures
            r@ == "list_running_applications"@,
    {
        "list_running_applications"
    }

    /// What the tool tells the model about itself.
    pub fn definition(&self) -> (d: ToolDefinition)
        ensures
            d.name@ == "list_running_applications"@,
            d.description@ == "列出当前正在运行的应用程序"@,
            is_empty_schema(d.parameters),
    {
        ToolDefinition {
            name: String::from_str("list_running_applications"),
            description: String::from_str("列出当前正在运行的应用程序"),
            parameters: empty_schema(),
        }
    }

    /// The reply to a listing of the running applications: their names as
    /// a JSON array, or the failure of the listing.
    pub fn call(&self, args: &ListRunningApplicationsArgs, listed: Result<Vec<String>, String>) -> (r: Result<String, ToolError>)
        ensures
            listed matches Ok(apps) ==> (r matches Ok(s) && s@ == json_string_array(string_views(apps@))),
            listed matches Err(e) ==> (r matches Err(ToolError(m)) && m == e),
    {
        listing_reply(listed)
    }
}

/// The `task_complete` tool: the model calls it when the goal is reached;
/// `completed` records that it was called.
pub struct TaskCompleteTool {
    pub completed: bool,
}

/// Arguments of `task_complete`: the summary of what was done.
pub struct TaskCompleteArgs {
    pub summary: String,
}

impl TaskCompleteTool {
    /// The tool's name.
    pub fn name(&self) -> (r: &'static str)
        ensures
            r@ == "task_complete"@,
    {
        "task_complete"
    }

    /// What the tool tells the model about itself.
    pub fn definition(&self) -> (d: ToolDefinition)
        ensures
            d.name@ == "task_complete"@,
            d.description@ == "当任务目标已完成时调用此工具，传入完成摘要"@,
            is_string_arg_schema(d.parameters, "summary"@, "任务完成摘要"@),
    {
        ToolDefinition {
            name: String::from_str("task_complete"),
            description: String::from_str("当任务目标已完成时调用此工具，传入完成摘要"),
            parameters: string_arg_schema("summary", "任务完成摘要"),
        }
    }

    /// Marks the task as completed and replies with the summary.
    pub fn call(&mut self, args: &TaskCompleteArgs) -> (r: Result<String, ToolError>)
        ensures
            final(self).completed,
            r matches Ok(s) && s@ == "任务已完成: "@ + args.summary@,
    {
        self.completed = true;
        Ok(concat2("任务已完成: ", args.summary.as_str()))
    }
}

} // verus!
