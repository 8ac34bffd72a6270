//! The tools that the screen agent offers the model, in the JSON form of
//! the chat API's `tools` list: for each, its name, what it does, and the
//! parameters it takes.
use vstd::prelude::*;
use crate::conversation::has_keys;
use crate::json::JsonValue;
use crate::screen_agent_v2::{planned, unknown_tool, ToolAction};
use crate::tools::ToolError;

verus! {

/// A parameter of a tool, as text: its name, JSON type and description.
pub struct ParamView {
    pub name: Seq<char>,
    pub ty: Seq<char>,
    pub description: Seq<char>,
}

/// A tool as the model sees it, as text.
pub struct ToolView {
    pub name: Seq<char>,
    pub description: Seq<char>,
    pub params: Seq<ParamView>,
    pub required: Seq<Seq<char>>,
}

/// `v` is the JSON string `s`.
pub open spec fn is_str(v: JsonValue, s: Seq<char>) -> bool {
    v matches JsonValue::String(t) && t@ == s
}

/// The value of the `i`-th entry of the object `v`.
pub open spec fn field(v: JsonValue, i: int) -> JsonValue {
    match v {
        JsonValue::Object(f) => f@[i].1,
        _ => JsonValue::Null,
    }
}

/// The schema of one parameter: its type and description, and for a list
/// also that its items are strings.
pub open spec fn param_json(v: JsonValue, ty: Seq<char>, description: Seq<char>) -> bool {
    if ty == "array"@ {
        &&& has_keys(v, seq!["type"@, "items"@, "description"@])
        &&& is_str(field(v, 0), "array"@)
        &&& has_keys(field(v, 1), seq!["type"@]) && is_str(field(field(v, 1), 0), "string"@)
        &&& is_str(field(v, 2), description)
    } else {
        &&& has_keys(v, seq!["type"@, "description"@])
        &&& is_str(field(v, 0), ty)
        &&& is_str(field(v, 1), description)
    }
}

/// The names of the parameters, in order.
pub open spec fn param_names(ps: Seq<ParamView>) -> Seq<Seq<char>> {
    ps.map_values(|p: ParamView| p.name)
}

/// `v` is the chat API's description of the tool `t`:
/// `{"type": "function", "function": {"name", "description", "parameters":
/// {"type": "object", "properties", "required"}}}`.
pub open spec fn tool_json(v: JsonValue, t: ToolView) -> bool {
    let f = field(v, 1);
    let p = field(f, 2);
    let props = field(p, 1);
    &&& has_keys(v, seq!["type"@, "function"@]) && is_str(field(v, 0), "function"@)
    &&& has_keys(f, seq!["name"@, "description"@, "parameters"@])
    &&& is_str(field(f, 0), t.name) && is_str(field(f, 1), t.description)
    &&& has_keys(p, seq!["type"@, "properties"@, "required"@]) && is_str(field(p, 0), "object"@)
    &&& has_keys(props, param_names(t.params))
    &&& forall|i: int|
        0 <= i < t.params.len() ==> param_json(field(props, i), #[trigger] t.params[i].ty, t.params[i].description)
    &&& field(p, 2) matches JsonValue::Array(items) && items@.len() == t.required.len() && forall|i: int|
        0 <= i < t.required.len() ==> is_str(#[trigger] items@[i], t.required[i])
}

/// A parameter.
pub open spec fn param(name: Seq<char>, ty: Seq<char>, description: Seq<char>) -> ParamView {
    ParamView { name, ty, description }
}

/// A tool that takes a point on the screen, in coordinates from 0 to 999.
pub open spec fn pointer_tool(name: Seq<char>, description: Seq<char>) -> ToolView {
    ToolView {
        name,
        description,
        params: seq![
            param("x"@, "number"@, "归一化 X 坐标 [0, 999]"@),
            param("y"@, "number"@, "归一化 Y 坐标 [0, 999]"@),
        ],
        required: seq!["x"@, "y"@],
    }
}

/// A tool without parameters.
pub open spec fn plain_tool(name: Seq<char>, description: Seq<char>) -> ToolView {
    ToolView { name, description, params: Seq::empty(), required: Seq::empty() }
}

/// A tool with one required parameter.
pub open spec fn one_param_tool(name: Seq<char>, description: Seq<char>, p: ParamView) -> ToolView {
    ToolView { name, description, params: seq![p], required: seq![p.name] }
}

/// The tools offered to the model, in order.
pub open spec fn catalog() -> Seq<ToolView> {
    seq![
        pointer_tool("click"@, "在屏幕指定坐标执行鼠标左键单击"@),
        pointer_tool("right_click"@, "在屏幕指定坐标执行鼠标右键点击"@),
        pointer_tool("double_click"@, "在屏幕指定坐标执行鼠标双击"@),
        pointer_tool("hover"@, "将鼠标移动到屏幕指定坐标，不点击。用于触发悬停菜单或提示"@),
        plain_tool("page_down"@, "向下翻页（模拟空格键），适用于浏览器等应用"@),
        plain_tool("page_up"@, "向上翻页（模拟 Shift+空格键），适用于浏览器等应用"@),
        ToolView {
            name: "scroll"@,
            description: "在屏幕指定坐标执行滚轮操作"@,
            params: seq![
                param("x"@, "number"@, "归一化 X 坐标 [0, 999]"@),
                param("y"@, "number"@, "归一化 Y 坐标 [0, 999]"@),
                param("direction"@, "string"@, "滚动方向: up 或 down"@),
                param("clicks"@, "integer"@, "滚动格数，默认 3"@),
            ],
            required: seq!["x"@, "y"@, "direction"@],
        },
        ToolView {
            name: "drag"@,
            description: "从起点坐标拖拽到终点坐标"@,
            params: seq![
                param("from_x"@, "number"@, "起点归一化 X 坐标 [0, 999]"@),
                param("from_y"@, "number"@, "起点归一化 Y 坐标 [0, 999]"@),
                param("to_x"@, "number"@, "终点归一化 X 坐标 [0, 999]"@),
                param("to_y"@, "number"@, "终点归一化 Y 坐标 [0, 999]"@),
            ],
            required: seq!["from_x"@, "from_y"@, "to_x"@, "to_y"@],
        },
        one_param_tool("type_text"@, "输入文本内容"@, param("text"@, "string"@, "要输入的文本"@)),
        one_param_tool(
            "press_key"@,
            "按下单个按键"@,
            param(
                "key"@,
                "string"@,
                "按键名称，如 enter, tab, escape, backspace, space, up, down, left, right, f1-f12"@,
            ),
        ),
        ToolView {
            name: "hotkey"@,
            description: "执行组合键操作"@,
            params: seq![
                param("modifiers"@, "array"@, "修饰键数组，如 [\"command\"], [\"command\", \"shift\"]"@),
                param("key"@, "string"@, "主按键"@),
            ],
            required: seq!["modifiers"@, "key"@],
        },
        one_param_tool("open_application"@, "打开指定应用程序"@, param("app_name"@, "string"@, "应用程序名称"@)),
        one_param_tool("close_application"@, "关闭指定应用程序"@, param("app_name"@, "string"@, "应用程序名称"@)),
        one_param_tool(
            "focus_application"@,
            "将指定应用程序聚焦到前台"@,
            param("app_name"@, "string"@, "应用程序名称"@),
        ),
        one_param_tool(
            "wait"@,
            "等待指定秒数。用于等待页面加载、动画播放、网络请求完成等需要时间的场景。"@,
            param("seconds"@, "integer"@, "等待的秒数，建议 1-30 之间"@),
        ),
        one_param_tool(
            "ask_human"@,
            "向人类提问或请求帮助。当你不确定如何操作、需要人类协助完成某个步骤、或需要人类提供额外信息时使用此工具。程序会暂停等待人类输入回复。"@,
            param("question"@, "string"@, "向人类提出的问题或请求描述"@),
        ),
        one_param_tool("task_complete"@, "任务完成时调用此工具"@, param("summary"@, "string"@, "任务完成摘要"@)),
        plain_tool("read_clipboard"@, "读取系统剪贴板中的文本内容。用于查看用户或程序复制到剪贴板的文本。"@),
    ]
}

/// A JSON string.
fn text(s: &str) -> (v: JsonValue)
    ensures
        is_str(v, s@),
{
    JsonValue::String(String::from_str(s))
}

/// An object with the given keys and values, in order.
fn object(keys: Vec<&str>, values: Vec<JsonValue>) -> (v: JsonValue)
    requires
        keys@.len() == values@.len(),
    ensures
        has_keys(v, keys@.map_values(|k: &str| k@)),
        forall|i: int| 0 <= i < keys@.len() ==> field(v, i) == #[trigger] values@[i],
{
    let mut f: Vec<(String, JsonValue)> = Vec::new();
    let mut values = values;
    let n = keys.len();
    let ghost vs = values@;
    for i in 0..n
        invariant
            n == keys@.len(),
            vs.len() == n,
            values@.len() == n,
            forall|j: int| i <= j < n ==> values@[j] == vs[j],
            f@.len() == i,
            forall|j: int| 0 <= j < i ==> (#[trigger] f@[j]).0@ == keys@[j]@ && f@[j].1 == vs[j],
    {
        let mut x = JsonValue::Null;
        values.set_and_swap(i, &mut x);
        f.push((String::from_str(keys[i]), x));
    }
    let v = JsonValue::Object(f);
    assert forall|i: int| 0 <= i < keys@.len() implies (#[trigger] f@[i]).0@ == keys@.map_values(
        |k: &str| k@,
    )[i] by {}
    v
}

/// The schema of one parameter.
fn param_schema(ty: &str, description: &str) -> (v: JsonValue)
    ensures
        param_json(v, ty@, description@),
{
    if crate::json::str_eq(ty, "array") {
        let item = object(vec!["type"], vec![text("string")]);
        let v = object(vec!["type", "items", "description"], vec![text("array"), item, text(description)]);
        proof {
            assert(seq!["type", "items", "description"].map_values(|k: &str| k@) =~= seq!["type"@, "items"@, "description"@]);
        }
        v
    } else {
        let v = object(vec!["type", "description"], vec![text(ty), text(description)]);
        v
    }
}

/// The JSON description of the tool `t`, from its parts.
fn tool_entry(
    name: &str,
    description: &str,
    names: Vec<&str>,
    schemas: Vec<JsonValue>,
    required: Vec<&str>,
    Ghost(t): Ghost<ToolView>,
) -> (v: JsonValue)
    requires
        name@ == t.name,
        description@ == t.description,
        names@.len() == schemas@.len(),
        names@.map_values(|k: &str| k@) =~= param_names(t.params),
        forall|i: int|
            0 <= i < t.params.len() ==> param_json(#[trigger] schemas@[i], t.params[i].ty, t.params[i].description),
        required@.map_values(|k: &str| k@) =~= t.required,
    ensures
        tool_json(v, t),
{
    let ghost sv = schemas@;
    let props = object(names, schemas);
    let mut items: Vec<JsonValue> = Vec::new();
    let m = required.len();
    for i in 0..m
        invariant
            m == required@.len(),
            items@.len() == i,
            forall|j: int| 0 <= j < i ==> is_str(#[trigger] items@[j], required@[j]@),
    {
        items.push(text(required[i]));
    }
    let ghost iv = items@;
    let parameters = object(vec!["type", "properties", "required"], vec![text("object"), props, JsonValue::Array(items)]);
    let function = object(vec!["name", "description", "parameters"], vec![text(name), text(description), parameters]);
    let v = object(vec!["type", "function"], vec![text("function"), function]);
    proof {
        assert(seq!["type", "function"].map_values(|k: &str| k@) =~= seq!["type"@, "function"@]);
        assert(seq!["name", "description", "parameters"].map_values(|k: &str| k@) =~= seq!["name"@, "description"@, "parameters"@]);
        assert(seq!["type", "properties", "required"].map_values(|k: &str| k@) =~= seq!["type"@, "properties"@, "required"@]);
        assert(field(v, 1) == function);
        assert(field(function, 2) == parameters);
        assert(field(parameters, 1) == props);
        assert(field(parameters, 2) == JsonValue::Array(items));
        assert forall|i: int| 0 <= i < t.params.len() implies param_json(field(props, i), #[trigger] t.params[i].ty, t.params[i].description) by {
            assert(field(props, i) == sv[i]);
        }
        assert forall|i: int| 0 <= i < t.required.len() implies is_str(#[trigger] iv[i], t.required[i]) by {
            assert(required@.map_values(|k: &str| k@)[i] == required@[i]@);
        }
    }
    v
}

/// The description of a tool that takes a point on the screen.
fn pointer_entry(name: &str, description: &str) -> (v: JsonValue)
    ensures
        tool_json(v, pointer_tool(name@, description@)),
{
    tool_entry(
        name,
        description,
        vec!["x", "y"],
        vec![param_schema("number", "归一化 X 坐标 [0, 999]"), param_schema("number", "归一化 Y 坐标 [0, 999]")],
        vec!["x", "y"],
        Ghost(pointer_tool(name@, description@)),
    )
}

/// The description of a tool without parameters.
fn plain_entry(name: &str, description: &str) -> (v: JsonValue)
    ensures
        tool_json(v, plain_tool(name@, description@)),
{
    tool_entry(name, description, Vec::new(), Vec::new(), Vec::new(), Ghost(plain_tool(name@, description@)))
}

/// The description of a tool with one required parameter.
fn one_param_entry(name: &str, description: &str, pname: &str, ty: &str, pdescription: &str) -> (v: JsonValue)
    ensures
        tool_json(v, one_param_tool(name@, description@, param(pname@, ty@, pdescription@))),
{
    tool_entry(
        name,
        description,
        vec![pname],
        vec![param_schema(ty, pdescription)],
        vec![pname],
        Ghost(one_param_tool(name@, description@, param(pname@, ty@, pdescription@))),
    )
}

/// The tools offered to the model, as the chat API's `tools` list.
pub fn tools_definition() -> (v: JsonValue)
    ensures
        v matches JsonValue::Array(items) && items@.len() == catalog().len() && forall|i: int|
            0 <= i < catalog().len() ==> tool_json(#[trigger] items@[i], catalog()[i]),
{
    let ghost cat = catalog();
    let mut items: Vec<JsonValue> = Vec::new();
    items.push(pointer_entry("click", "在屏幕指定坐标执行鼠标左键单击"));
    items.push(pointer_entry("right_click", "在屏幕指定坐标执行鼠标右键点击"));
    items.push(pointer_entry("double_click", "在屏幕指定坐标执行鼠标双击"));
    items.push(pointer_entry("hover", "将鼠标移动到屏幕指定坐标，不点击。用于触发悬停菜单或提示"));
    items.push(plain_entry("page_down", "向下翻页（模拟空格键），适用于浏览器等应用"));
    items.push(plain_entry("page_up", "向上翻页（模拟 Shift+空格键），适用于浏览器等应用"));
    assert forall|i: int| 0 <= i < 6 implies tool_json(#[trigger] items@[i], cat[i]) by {}
    items.push(
        tool_entry(
            "scroll",
            "在屏幕指定坐标执行滚轮操作",
            vec!["x", "y", "direction", "clicks"],
            vec![
                param_schema("number", "归一化 X 坐标 [0, 999]"),
                param_schema("number", "归一化 Y 坐标 [0, 999]"),
                param_schema("string", "滚动方向: up 或 down"),
                param_schema("integer", "滚动格数，默认 3"),
            ],
            vec!["x", "y", "direction"],
            Ghost(cat[6]),
        ),
    );
    items.push(
        tool_entry(
            "drag",
            "从起点坐标拖拽到终点坐标",
            vec!["from_x", "from_y", "to_x", "to_y"],
            vec![
                param_schema("number", "起点归一化 X 坐标 [0, 999]"),
                param_schema("number", "起点归一化 Y 坐标 [0, 999]"),
                param_schema("number", "终点归一化 X 坐标 [0, 999]"),
                param_schema("number", "终点归一化 Y 坐标 [0, 999]"),
            ],
            vec!["from_x", "from_y", "to_x", "to_y"],
            Ghost(cat[7]),
        ),
    );
    items.push(one_param_entry("type_text", "输入文本内容", "text", "string", "要输入的文本"));
    items.push(
        one_param_entry(
            "press_key",
            "按下单个按键",
            "key",
            "string",
            "按键名称，如 enter, tab, escape, backspace, space, up, down, left, right, f1-f12",
        ),
    );
    items.push(
        tool_entry(
            "hotkey",
            "执行组合键操作",
            vec!["modifiers", "key"],
            vec![
                param_schema("array", "修饰键数组，如 [\"command\"], [\"command\", \"shift\"]"),
                param_schema("string", "主按键"),
            ],
            vec!["modifiers", "key"],
            Ghost(cat[10]),
        ),
    );
    assert forall|i: int| 0 <= i < 11 implies tool_json(#[trigger] items@[i], cat[i]) by {}
    items.push(one_param_entry("open_application", "打开指定应用程序", "app_name", "string", "应用程序名称"));
    items.push(one_param_entry("close_application", "关闭指定应用程序", "app_name", "string", "应用程序名称"));
    items.push(one_param_entry("focus_application", "将指定应用程序聚焦到前台", "app_name", "string", "应用程序名称"));
    items.push(
        one_param_entry(
            "wait",
            "等待指定秒数。用于等待页面加载、动画播放、网络请求完成等需要时间的场景。",
            "seconds",
            "integer",
            "等待的秒数，建议 1-30 之间",
        ),
    );
    items.push(
        one_param_entry(
            "ask_human",
            "向人类提问或请求帮助。当你不确定如何操作、需要人类协助完成某个步骤、或需要人类提供额外信息时使用此工具。程序会暂停等待人类输入回复。",
            "question",
            "string",
            "向人类提出的问题或请求描述",
        ),
    );
    items.push(one_param_entry("task_complete", "任务完成时调用此工具", "summary", "string", "任务完成摘要"));
    items.push(plain_entry("read_clipboard", "读取系统剪贴板中的文本内容。用于查看用户或程序复制到剪贴板的文本。"));
    assert forall|i: int| 0 <= i < 18 implies tool_json(#[trigger] items@[i], cat[i]) by {}
    JsonValue::Array(items)
}

/// Every tool offered to the model is one that the agent runs: whatever
/// the arguments, a call of it is not refused as an unknown tool.
pub proof fn law_offered_tools_are_known(i: int, args: JsonValue, r: Result<ToolAction, ToolError>)
    requires
        0 <= i < catalog().len(),
        planned(catalog()[i].name, args, r),
    ensures
        !(r matches Err(e) && e.0@ == unknown_tool(catalog()[i].name)),
{
    reveal_strlit("缺少或无效参数: ");
    reveal_strlit("参数 ");
    reveal_strlit("未知工具: ");
    if let Err(e) = r {
        assert(("缺少或无效参数: "@ + catalog()[i].name)[0] == '缺');
        assert(("参数 "@ + catalog()[i].name)[0] == '参');
        assert(unknown_tool(catalog()[i].name)[0] == '未');
    }
}

/// Every tool that the agent runs is offered to the model: a name that is
/// not refused as unknown is the name of a tool in the catalog.
pub proof fn law_known_tools_are_offered(name: Seq<char>, args: JsonValue, r: Result<ToolAction, ToolError>)
    requires
        planned(name, args, r),
        !(r matches Err(e) && e.0@ == unknown_tool(name)),
    ensures
        exists|i: int| 0 <= i < catalog().len() && #[trigger] catalog()[i].name == name,
{
    let c = catalog();
    assert(c[0].name == "click"@);
    assert(c[1].name == "right_click"@);
    assert(c[2].name == "double_click"@);
    assert(c[3].name == "hover"@);
    assert(c[4].name == "page_down"@);
    assert(c[5].name == "page_up"@);
    assert(c[6].name == "scroll"@);
    assert(c[7].name == "drag"@);
    assert(c[8].name == "type_text"@);
    assert(c[9].name == "press_key"@);
    assert(c[10].name == "hotkey"@);
    assert(c[11].name == "open_application"@);
    assert(c[12].name == "close_application"@);
    assert(c[13].name == "focus_application"@);
    assert(c[14].name == "wait"@);
    assert(c[15].name == "ask_human"@);
    assert(c[16].name == "task_complete"@);
    assert(c[17].name == "read_clipboard"@);
}

} // verus!
