//! Tool definitions offered to a language model, and a registry of them.
use vstd::prelude::*;
use crate::strmap::StrMap;

verus! {

/// Definition of a tool/function that can be called by the LLM.
#[derive(Debug, Clone)]
pub struct ToolDefinition {
    /// Always `"function"` for the tools of this crate.
    pub tool_type: String,
    pub function: FunctionDefinition,
}

/// Name, description and parameters of a callable function.
#[derive(Debug, Clone)]
pub struct FunctionDefinition {
    pub name: String,
    pub description: String,
    pub parameters: ParametersSchema,
}

/// A JSON-schema object describing a function's parameters.
#[derive(Debug, Clone)]
pub struct ParametersSchema {
    pub schema_type: String,
    pub properties: StrMap<ToolParameter>,
    pub required: Vec<String>,
}

/// One parameter of a function.
#[derive(Debug, Clone)]
pub struct ToolParameter {
    pub param_type: String,
    pub description: String,
    pub enum_values: Option<Vec<String>>,
}

/// A parameter schema is an object schema whose required parameters are all
/// among its properties.
pub open spec fn schema_wf(p: ParametersSchema) -> bool {
    &&& p.schema_type@ == "object"@
    &&& forall|i: int| 0 <= i < p.required@.len() ==> p.properties@.contains_key(#[trigger] p.required@[i]@)
}

/// A well-formed function tool.
pub open spec fn tool_wf(t: ToolDefinition) -> bool {
    t.tool_type@ == "function"@ && schema_wf(t.function.parameters)
}

/// Registry for managing available tools, keyed by function name.
pub struct ToolRegistry {
    tools: StrMap<ToolDefinition>,
}

impl View for ToolRegistry {
    type V = Map<Seq<char>, ToolDefinition>;

    closed spec fn view(&self) -> Map<Seq<char>, ToolDefinition> {
        self.tools@
    }
}

/// Every tool of `m` is filed under its own function name.
pub open spec fn keyed_by_name(m: Map<Seq<char>, ToolDefinition>) -> bool {
    forall|k: Seq<char>| #[trigger] m.contains_key(k) ==> m[k].function.name@ == k
}

/// The names of the browser automation tools.
pub open spec fn browser_tool_names() -> Set<Seq<char>> {
    set![
        "navigate_to"@, "fill_form_field"@, "click_element"@, "extract_text"@,
        "get_page_content"@, "wait_for_element"@, "get_current_url"@, "get_page_title"@,
        "analyze_form"@, "auto_fill_form"@, "submit_form"@, "get_form_fields"@,
        "extract_data"@, "query_kg"@, "predict_link"@, "store_memory"@,
    ]
}

/// The JSON type of each parameter of a tool, its required parameters in order,
/// and the values that its enumerated parameters allow.
pub type ToolSchema = (Map<Seq<char>, Seq<char>>, Seq<Seq<char>>, Map<Seq<char>, Seq<Seq<char>>>);

/// The enumerated values of a parameter as texts.
pub open spec fn enum_view(e: Option<Vec<String>>) -> Option<Seq<Seq<char>>> {
    match e {
        Some(v) => Some(v@.map_values(|s: String| s@)),
        None => None,
    }
}

/// The tool's parameters are those of `schema`: the same names with the same
/// types, the same enumerated values, and the same required list, in order.
pub open spec fn tool_has_schema(t: ToolDefinition, schema: ToolSchema) -> bool {
    let props = t.function.parameters.properties@;
    &&& props.dom() == schema.0.dom()
    &&& forall|p: Seq<char>| #[trigger] props.contains_key(p) ==> props[p].param_type@ == schema.0[p]
        && enum_view(props[p].enum_values) == (if schema.2.contains_key(p) { Some(schema.2[p]) } else { None })
    &&& t.function.parameters.required@.map_values(|s: String| s@) == schema.1
}

/// The browser automation tools, by name, in the order they are registered.
pub open spec fn browser_tool_list() -> Seq<Seq<char>> {
    seq!["navigate_to"@, "fill_form_field"@, "click_element"@, "extract_text"@, "get_page_content"@, "wait_for_element"@, "get_current_url"@, "get_page_title"@, "analyze_form"@, "auto_fill_form"@, "submit_form"@, "get_form_fields"@, "extract_data"@, "query_kg"@, "predict_link"@, "store_memory"@]
}

/// The parameter schemas of the browser automation tools, in the order of
/// [`browser_tool_list`].
pub open spec fn browser_tool_schemas() -> Seq<ToolSchema> {
    seq![
        (map!["url"@ => "string"@], seq!["url"@], Map::empty()),
        (map!["field_name"@ => "string"@, "value"@ => "string"@], seq!["field_name"@, "value"@], Map::empty()),
        (map!["selector"@ => "string"@], seq!["selector"@], Map::empty()),
        (map!["selector"@ => "string"@], seq!["selector"@], Map::empty()),
        (map!["format"@ => "string"@], seq!["format"@], map!["format"@ => seq!["html"@, "text"@]]),
        (map!["selector"@ => "string"@, "timeout_ms"@ => "integer"@], seq!["selector"@], Map::empty()),
        (Map::empty(), Seq::empty(), Map::empty()),
        (Map::empty(), Seq::empty(), Map::empty()),
        (map!["form_index"@ => "integer"@], Seq::empty(), Map::empty()),
        (map!["form_data"@ => "object"@, "form_index"@ => "integer"@], seq!["form_data"@], Map::empty()),
        (map!["form_selector"@ => "string"@, "form_index"@ => "integer"@], Seq::empty(), Map::empty()),
        (map!["form_index"@ => "integer"@], Seq::empty(), Map::empty()),
        (map!["selectors"@ => "object"@], seq!["selectors"@], Map::empty()),
        (map!["query"@ => "string"@], seq!["query"@], Map::empty()),
        (map!["prediction_type"@ => "string"@, "head"@ => "string"@, "relation"@ => "string"@, "tail"@ => "string"@, "k"@ => "integer"@], seq!["prediction_type"@], map!["prediction_type"@ => seq!["tail"@, "head"@, "relation"@]]),
        (map!["subject"@ => "string"@, "predicate"@ => "string"@, "object"@ => "string"@], seq!["subject"@, "predicate"@, "object"@], Map::empty())
    ]
}

/// The position of a browser tool's name in [`browser_tool_list`], read off its
/// length and a few of its characters.
pub open spec fn browser_tool_rank(n: Seq<char>) -> int {
    if n.len() == 8 {
        13
    } else if n.len() == 11 {
        if n[0] == 'n' { 0 } else { 10 }
    } else if n.len() == 13 {
        2
    } else if n.len() == 14 {
        if n[0] == 'g' { 7 } else { 9 }
    } else if n.len() == 15 {
        if n[0] == 'f' { 1 } else if n[4] == 'c' { 6 } else { 11 }
    } else if n.len() == 16 {
        if n[0] == 'g' { 4 } else { 5 }
    } else if n.len() == 12 {
        if n[0] == 'a' { 8 } else if n[0] == 'p' { 14 } else if n[0] == 's' { 15 } else if n[8] == 't' { 3 } else { 12 }
    } else {
        -1
    }
}

/// The browser tools have distinct names.
proof fn lemma_browser_tool_names_distinct()
    ensures
        forall|i: int, j: int|
            0 <= i < j < browser_tool_list().len() ==> #[trigger] browser_tool_list()[i] != #[trigger] browser_tool_list()[j],
{
    assert forall|i: int| 0 <= i < browser_tool_list().len() implies browser_tool_rank(#[trigger] browser_tool_list()[i]) == i by {
        if i == 0 {
            reveal_strlit("navigate_to");
        }         else if i == 1 {
            reveal_strlit("fill_form_field");
        }         else if i == 2 {
            reveal_strlit("click_element");
        }         else if i == 3 {
            reveal_strlit("extract_text");
        }         else if i == 4 {
            reveal_strlit("get_page_content");
        }         else if i == 5 {
            reveal_strlit("wait_for_element");
        }         else if i == 6 {
            reveal_strlit("get_current_url");
        }         else if i == 7 {
            reveal_strlit("get_page_title");
        }         else if i == 8 {
            reveal_strlit("analyze_form");
        }         else if i == 9 {
            reveal_strlit("auto_fill_form");
        }         else if i == 10 {
            reveal_strlit("submit_form");
        }         else if i == 11 {
            reveal_strlit("get_form_fields");
        }         else if i == 12 {
            reveal_strlit("extract_data");
        }         else if i == 13 {
            reveal_strlit("query_kg");
        }         else if i == 14 {
            reveal_strlit("predict_link");
        }         else if i == 15 {
            reveal_strlit("store_memory");
        }
    }
}

impl ToolRegistry {
    #[verifier::type_invariant]
    spec fn inv(self) -> bool {
        keyed_by_name(self.tools@)
    }

    /// An empty registry.
    pub fn new() -> (r: Self)
        ensures
            r@ == Map::<Seq<char>, ToolDefinition>::empty(),
    {
        let r = ToolRegistry { tools: StrMap::new() };
        r
    }

    /// Register a tool under its function name, replacing any tool of that name.
    pub fn register(&mut self, tool: ToolDefinition)
        ensures
            final(self)@ == old(self)@.insert(tool.function.name@, tool),
    {
        proof {
            use_type_invariant(&*self);
        }
        let name = tool.function.name.clone();
        let mut tools = StrMap::new();
        std::mem::swap(&mut tools, &mut self.tools);
        tools.insert(name, tool);
        self.tools = tools;
    }

    /// The tool registered under `name`, if any.
    pub fn get_tool(&self, name: &str) -> (r: Option<&ToolDefinition>)
        ensures
            match r {
                Some(t) => self@.contains_key(name@) && *t == self@[name@] && t.function.name@ == name@,
                None => !self@.contains_key(name@),
            },
    {
        proof {
            use_type_invariant(self);
        }
        self.tools.get(name)
    }

    /// The names of the registered tools.
    pub fn tool_names(&self) -> (r: Vec<String>)
        ensures
            r@.len() == self@.len(),
            forall|i: int| 0 <= i < r@.len() ==> self@.contains_key(#[trigger] r@[i]@),
            forall|k: Seq<char>| self@.contains_key(k) ==> exists|i: int| 0 <= i < r@.len() && #[trigger] r@[i]@ == k,
    {
        self.tools.keys()
    }

    /// Every registered tool, once each, for an LLM request (which writes each as
    /// JSON).
    pub fn get_tools_json(&self) -> (r: Vec<&ToolDefinition>)
        ensures
            r@.len() == self@.len(),
            forall|i: int|
                0 <= i < r@.len() ==> self@.contains_key(#[trigger] r@[i].function.name@) && *r@[i]
                    == self@[r@[i].function.name@],
            forall|k: Seq<char>| self@.contains_key(k) ==> exists|i: int| 0 <= i < r@.len() && #[trigger] r@[i].function.name@ == k,
    {
        let names = self.tool_names();
        let mut out: Vec<&ToolDefinition> = Vec::new();
        let mut i: usize = 0;
        while i < names.len()
            invariant
                i <= names@.len(),
                names@.len() == self@.len(),
                forall|j: int| 0 <= j < names@.len() ==> self@.contains_key(#[trigger] names@[j]@),
                out@.len() == i,
                forall|j: int| 0 <= j < i ==> #[trigger] out@[j].function.name@ == names@[j]@ && *out@[j] == self@[names@[j]@],
            decreases names.len() - i,
        {
            match self.get_tool(names[i].as_str()) {
                Some(t) => out.push(t),
                None => {
                    assert(self@.contains_key(names@[i as int]@));
                    assert(false);
                },
            }
            i = i + 1;
        }
        assert forall|k: Seq<char>| self@.contains_key(k) implies exists|j: int| 0 <= j < out@.len() && #[trigger] out@[j].function.name@ == k by {
            let j = choose|j: int| 0 <= j < names@.len() && #[trigger] names@[j]@ == k;
            assert(out@[j].function.name@ == k);
        }
        out
    }

    /// A registry holding the browser automation tools, each with its parameter
    /// schema.
    pub fn with_browser_tools() -> (r: Self)
        ensures
            r@.dom() == browser_tool_names(),
            forall|k: Seq<char>| #[trigger] r@.contains_key(k) ==> tool_wf(r@[k]) && r@[k].function.name@ == k,
            forall|i: int|
                #![trigger browser_tool_schemas()[i]]
                0 <= i < browser_tool_list().len() ==> r@.contains_key(browser_tool_list()[i]) && tool_has_schema(
                    r@[browser_tool_list()[i]],
                    browser_tool_schemas()[i],
                ),
    {
        let mut registry = Self::new();
        let t0 = navigate_to_tool();
        let ghost g0 = t0;
        registry.register(t0);
        let t1 = fill_form_field_tool();
        let ghost g1 = t1;
        registry.register(t1);
        let t2 = click_element_tool();
        let ghost g2 = t2;
        registry.register(t2);
        let t3 = extract_text_tool();
        let ghost g3 = t3;
        registry.register(t3);
        let t4 = get_page_content_tool();
        let ghost g4 = t4;
        registry.register(t4);
        let t5 = wait_for_element_tool();
        let ghost g5 = t5;
        registry.register(t5);
        let t6 = get_current_url_tool();
        let ghost g6 = t6;
        registry.register(t6);
        let t7 = get_page_title_tool();
        let ghost g7 = t7;
        registry.register(t7);
        let t8 = analyze_form_tool();
        let ghost g8 = t8;
        registry.register(t8);
        let t9 = auto_fill_form_tool();
        let ghost g9 = t9;
        registry.register(t9);
        let t10 = submit_form_tool();
        let ghost g10 = t10;
        registry.register(t10);
        let t11 = get_form_fields_tool();
        let ghost g11 = t11;
        registry.register(t11);
        let t12 = extract_data_tool();
        let ghost g12 = t12;
        registry.register(t12);
        let t13 = query_kg_tool();
        let ghost g13 = t13;
        registry.register(t13);
        let t14 = predict_link_tool();
        let ghost g14 = t14;
        registry.register(t14);
        let t15 = store_memory_tool();
        let ghost g15 = t15;
        registry.register(t15);
        proof {
            use_type_invariant(&registry);
            lemma_browser_tool_names_distinct();
        }
        assert(registry@.dom() =~= browser_tool_names());
        assert forall|i: int|
            #![trigger browser_tool_schemas()[i]]
            0 <= i < browser_tool_list().len() implies registry@.contains_key(browser_tool_list()[i]) && tool_has_schema(
                registry@[browser_tool_list()[i]],
                browser_tool_schemas()[i],
            ) by {
            if i == 0 {
                assert(registry@[browser_tool_list()[0]] == g0);
            }
            else if i == 1 {
                assert(registry@[browser_tool_list()[1]] == g1);
            }
            else if i == 2 {
                assert(registry@[browser_tool_list()[2]] == g2);
            }
            else if i == 3 {
                assert(registry@[browser_tool_list()[3]] == g3);
            }
            else if i == 4 {
                assert(registry@[browser_tool_list()[4]] == g4);
            }
            else if i == 5 {
                assert(registry@[browser_tool_list()[5]] == g5);
            }
            else if i == 6 {
                assert(registry@[browser_tool_list()[6]] == g6);
            }
            else if i == 7 {
                assert(registry@[browser_tool_list()[7]] == g7);
            }
            else if i == 8 {
                assert(registry@[browser_tool_list()[8]] == g8);
            }
            else if i == 9 {
                assert(registry@[browser_tool_list()[9]] == g9);
            }
            else if i == 10 {
                assert(registry@[browser_tool_list()[10]] == g10);
            }
            else if i == 11 {
                assert(registry@[browser_tool_list()[11]] == g11);
            }
            else if i == 12 {
                assert(registry@[browser_tool_list()[12]] == g12);
            }
            else if i == 13 {
                assert(registry@[browser_tool_list()[13]] == g13);
            }
            else if i == 14 {
                assert(registry@[browser_tool_list()[14]] == g14);
            }
            else if i == 15 {
                assert(registry@[browser_tool_list()[15]] == g15);
            }
        }
        registry
    }
}

/// Law: a registered tool is found under its name, and the other tools stay as
/// they were.
pub proof fn law_register_then_get(before: Map<Seq<char>, ToolDefinition>, tool: ToolDefinition, other: Seq<char>)
    ensures
        before.insert(tool.function.name@, tool).contains_key(tool.function.name@),
        before.insert(tool.function.name@, tool)[tool.function.name@] == tool,
        other != tool.function.name@ ==> (before.insert(tool.function.name@, tool).contains_key(other)
            == before.contains_key(other) && before.insert(tool.function.name@, tool)[other] == before[other]),
{
}

impl Default for ToolRegistry {
    fn default() -> (r: Self)
        ensures
            r@ == Map::<Seq<char>, ToolDefinition>::empty(),
    {
        Self::new()
    }
}

/// A parameter of type `ty` described by `description`, with no enumerated values.
fn param(ty: &str, description: &str) -> (r: ToolParameter)
    ensures
        r.param_type@ == ty@,
        r.description@ == description@,
        r.enum_values is None,
{
    ToolParameter { param_type: ty.to_owned(), description: description.to_owned(), enum_values: None }
}

/// A function tool named `name`.
fn function_tool(
    name: &str,
    description: &str,
    properties: StrMap<ToolParameter>,
    required: Vec<String>,
) -> (r: ToolDefinition)
    requires
        forall|i: int| 0 <= i < required@.len() ==> properties@.contains_key(#[trigger] required@[i]@),
    ensures
        tool_wf(r),
        r.function.name@ == name@,
        r.function.description@ == description@,
        r.function.parameters.properties@ == properties@,
        r.function.parameters.required@ == required@,
{
    ToolDefinition {
        tool_type: "function".to_owned(),
        function: FunctionDefinition {
            name: name.to_owned(),
            description: description.to_owned(),
            parameters: ParametersSchema {
                schema_type: "object".to_owned(),
                properties,
                required,
            },
        },
    }
}

fn navigate_to_tool() -> (r: ToolDefinition)
    ensures
        tool_wf(r),
        r.function.name@ == "navigate_to"@,
        r.function.name@ == browser_tool_list()[0],
        tool_has_schema(r, browser_tool_schemas()[0]),
{
    let mut props = StrMap::new();
    props.insert("url".to_owned(), param("string", "The URL to navigate to"));
    let required = vec!["url".to_owned()];
    let r = function_tool("navigate_to", "Navigate to a URL in the browser", props, required);
    proof {
        reveal_strlit("url");
        assert(r.function.parameters.properties@.dom() =~= browser_tool_schemas()[0].0.dom());
        assert(r.function.parameters.required@.map_values(|s: String| s@) =~= browser_tool_schemas()[0].1);
    }
    r
}

fn fill_form_field_tool() -> (r: ToolDefinition)
    ensures
        tool_wf(r),
        r.function.name@ == "fill_form_field"@,
        r.function.name@ == browser_tool_list()[1],
        tool_has_schema(r, browser_tool_schemas()[1]),
{
    let mut props = StrMap::new();
    props.insert("field_name".to_owned(), param("string", "Name or hint for the form field to fill"));
    props.insert("value".to_owned(), param("string", "Value to fill in the field"));
    let required = vec!["field_name".to_owned(), "value".to_owned()];
    let r = function_tool("fill_form_field", "Fill a specific form field with a value", props, required);
    proof {
        reveal_strlit("field_name");
        reveal_strlit("value");
        assert(r.function.parameters.properties@.dom() =~= browser_tool_schemas()[1].0.dom());
        assert(r.function.parameters.required@.map_values(|s: String| s@) =~= browser_tool_schemas()[1].1);
    }
    r
}

fn click_element_tool() -> (r: ToolDefinition)
    ensures
        tool_wf(r),
        r.function.name@ == "click_element"@,
        r.function.name@ == browser_tool_list()[2],
        tool_has_schema(r, browser_tool_schemas()[2]),
{
    let mut props = StrMap::new();
    props.insert("selector".to_owned(), param("string", "CSS selector for the element to click"));
    let required = vec!["selector".to_owned()];
    let r = function_tool("click_element", "Click on an element matching the given selector", props, required);
    proof {
        reveal_strlit("selector");
        assert(r.function.parameters.properties@.dom() =~= browser_tool_schemas()[2].0.dom());
        assert(r.function.parameters.required@.map_values(|s: String| s@) =~= browser_tool_schemas()[2].1);
    }
    r
}

fn extract_text_tool() -> (r: ToolDefinition)
    ensures
        tool_wf(r),
        r.function.name@ == "extract_text"@,
        r.function.name@ == browser_tool_list()[3],
        tool_has_schema(r, browser_tool_schemas()[3]),
{
    let mut props = StrMap::new();
    props.insert("selector".to_owned(), param("string", "CSS selector for the element to extract text from"));
    let required = vec!["selector".to_owned()];
    let r = function_tool("extract_text", "Extract text content from an element using CSS selector", props, required);
    proof {
        reveal_strlit("selector");
        assert(r.function.parameters.properties@.dom() =~= browser_tool_schemas()[3].0.dom());
        assert(r.function.parameters.required@.map_values(|s: String| s@) =~= browser_tool_schemas()[3].1);
    }
    r
}

fn get_page_content_tool() -> (r: ToolDefinition)
    ensures
        tool_wf(r),
        r.function.name@ == "get_page_content"@,
        r.function.name@ == browser_tool_list()[4],
        tool_has_schema(r, browser_tool_schemas()[4]),
{
    let mut props = StrMap::new();
    let mut format_param = param("string", "Format of content to retrieve: 'html' or 'text'");
    format_param.enum_values = Some(vec!["html".to_owned(), "text".to_owned()]);
    props.insert("format".to_owned(), format_param);
    let required = vec!["format".to_owned()];
    let r = function_tool("get_page_content", "Get the current page HTML content or text", props, required);
    proof {
        reveal_strlit("format");
        reveal_strlit("html");
        reveal_strlit("text");
        assert(r.function.parameters.properties@["format"@].enum_values.unwrap()@.map_values(|s: String| s@)
            =~= seq!["html"@, "text"@]);
        assert(r.function.parameters.properties@.dom() =~= browser_tool_schemas()[4].0.dom());
        assert(r.function.parameters.required@.map_values(|s: String| s@) =~= browser_tool_schemas()[4].1);
    }
    r
}

fn wait_for_element_tool() -> (r: ToolDefinition)
    ensures
        tool_wf(r),
        r.function.name@ == "wait_for_element"@,
        r.function.name@ == browser_tool_list()[5],
        tool_has_schema(r, browser_tool_schemas()[5]),
{
    let mut props = StrMap::new();
    props.insert("selector".to_owned(), param("string", "CSS selector for the element to wait for"));
    props.insert("timeout_ms".to_owned(), param("integer", "Maximum time to wait in milliseconds (default: 5000)"));
    let required = vec!["selector".to_owned()];
    let r = function_tool("wait_for_element", "Wait for an element to appear on the page", props, required);
    proof {
        reveal_strlit("selector");
        reveal_strlit("timeout_ms");
        assert(r.function.parameters.properties@.dom() =~= browser_tool_schemas()[5].0.dom());
        assert(r.function.parameters.required@.map_values(|s: String| s@) =~= browser_tool_schemas()[5].1);
    }
    r
}

fn get_current_url_tool() -> (r: ToolDefinition)
    ensures
        tool_wf(r),
        r.function.name@ == "get_current_url"@,
        r.function.name@ == browser_tool_list()[6],
        tool_has_schema(r, browser_tool_schemas()[6]),
{
    let mut props = StrMap::new();
    let required: Vec<String> = Vec::new();
    let r = function_tool("get_current_url", "Get the current page URL", props, required);
    proof {
        assert(r.function.parameters.properties@.dom() =~= browser_tool_schemas()[6].0.dom());
        assert(r.function.parameters.required@.map_values(|s: String| s@) =~= browser_tool_schemas()[6].1);
    }
    r
}

fn get_page_title_tool() -> (r: ToolDefinition)
    ensures
        tool_wf(r),
        r.function.name@ == "get_page_title"@,
        r.function.name@ == browser_tool_list()[7],
        tool_has_schema(r, browser_tool_schemas()[7]),
{
    let mut props = StrMap::new();
    let required: Vec<String> = Vec::new();
    let r = function_tool("get_page_title", "Get the current page title", props, required);
    proof {
        assert(r.function.parameters.properties@.dom() =~= browser_tool_schemas()[7].0.dom());
        assert(r.function.parameters.required@.map_values(|s: String| s@) =~= browser_tool_schemas()[7].1);
    }
    r
}

fn analyze_form_tool() -> (r: ToolDefinition)
    ensures
        tool_wf(r),
        r.function.name@ == "analyze_form"@,
        r.function.name@ == browser_tool_list()[8],
        tool_has_schema(r, browser_tool_schemas()[8]),
{
    let mut props = StrMap::new();
    props.insert("form_index".to_owned(), param("integer", "Index of the form to analyze (0-based, optional - analyzes all if not specified)"));
    let required: Vec<String> = Vec::new();
    let r = function_tool("analyze_form", "Analyze forms on the current page and return detailed information about fields, types, and purposes", props, required);
    proof {
        reveal_strlit("form_index");
        assert(r.function.parameters.properties@.dom() =~= browser_tool_schemas()[8].0.dom());
        assert(r.function.parameters.required@.map_values(|s: String| s@) =~= browser_tool_schemas()[8].1);
    }
    r
}

fn auto_fill_form_tool() -> (r: ToolDefinition)
    ensures
        tool_wf(r),
        r.function.name@ == "auto_fill_form"@,
        r.function.name@ == browser_tool_list()[9],
        tool_has_schema(r, browser_tool_schemas()[9]),
{
    let mut props = StrMap::new();
    props.insert("form_data".to_owned(), param("object", "Key-value pairs of field names/hints and their values to fill"));
    props.insert("form_index".to_owned(), param("integer", "Index of the form to fill (0-based, optional - uses first form if not specified)"));
    let required = vec!["form_data".to_owned()];
    let r = function_tool("auto_fill_form", "Automatically fill an entire form using semantic field matching", props, required);
    proof {
        reveal_strlit("form_data");
        reveal_strlit("form_index");
        assert(r.function.parameters.properties@.dom() =~= browser_tool_schemas()[9].0.dom());
        assert(r.function.parameters.required@.map_values(|s: String| s@) =~= browser_tool_schemas()[9].1);
    }
    r
}

fn submit_form_tool() -> (r: ToolDefinition)
    ensures
        tool_wf(r),
        r.function.name@ == "submit_form"@,
        r.function.name@ == browser_tool_list()[10],
        tool_has_schema(r, browser_tool_schemas()[10]),
{
    let mut props = StrMap::new();
    props.insert("form_selector".to_owned(), param("string", "CSS selector for the form element or submit button (optional - auto-detects if not specified)"));
    props.insert("form_index".to_owned(), param("integer", "Index of the form to submit (0-based, optional - uses first form if not specified)"));
    let required: Vec<String> = Vec::new();
    let r = function_tool("submit_form", "Submit a form by clicking its submit button or using form submission", props, required);
    proof {
        reveal_strlit("form_selector");
        reveal_strlit("form_index");
        assert(r.function.parameters.properties@.dom() =~= browser_tool_schemas()[10].0.dom());
        assert(r.function.parameters.required@.map_values(|s: String| s@) =~= browser_tool_schemas()[10].1);
    }
    r
}

fn get_form_fields_tool() -> (r: ToolDefinition)
    ensures
        tool_wf(r),
        r.function.name@ == "get_form_fields"@,
        r.function.name@ == browser_tool_list()[11],
        tool_has_schema(r, browser_tool_schemas()[11]),
{
    let mut props = StrMap::new();
    props.insert("form_index".to_owned(), param("integer", "Index of the form to analyze (0-based, optional - analyzes all forms if not specified)"));
    let required: Vec<String> = Vec::new();
    let r = function_tool("get_form_fields", "Get a list of all form fields on the current page with their metadata", props, required);
    proof {
        reveal_strlit("form_index");
        assert(r.function.parameters.properties@.dom() =~= browser_tool_schemas()[11].0.dom());
        assert(r.function.parameters.required@.map_values(|s: String| s@) =~= browser_tool_schemas()[11].1);
    }
    r
}

fn extract_data_tool() -> (r: ToolDefinition)
    ensures
        tool_wf(r),
        r.function.name@ == "extract_data"@,
        r.function.name@ == browser_tool_list()[12],
        tool_has_schema(r, browser_tool_schemas()[12]),
{
    let mut props = StrMap::new();
    props.insert("selectors".to_owned(), param("object", "Key-value pairs of field names and CSS selectors"));
    let required = vec!["selectors".to_owned()];
    let r = function_tool("extract_data", "Extract structured data from the current page using CSS selectors", props, required);
    proof {
        reveal_strlit("selectors");
        assert(r.function.parameters.properties@.dom() =~= browser_tool_schemas()[12].0.dom());
        assert(r.function.parameters.required@.map_values(|s: String| s@) =~= browser_tool_schemas()[12].1);
    }
    r
}

fn query_kg_tool() -> (r: ToolDefinition)
    ensures
        tool_wf(r),
        r.function.name@ == "query_kg"@,
        r.function.name@ == browser_tool_list()[13],
        tool_has_schema(r, browser_tool_schemas()[13]),
{
    let mut props = StrMap::new();
    props.insert("query".to_owned(), param("string", "SPARQL query string (SELECT, ASK, CONSTRUCT, DESCRIBE)"));
    let required = vec!["query".to_owned()];
    let r = function_tool("query_kg", "Execute a SPARQL query against the Knowledge Graph", props, required);
    proof {
        reveal_strlit("query");
        assert(r.function.parameters.properties@.dom() =~= browser_tool_schemas()[13].0.dom());
        assert(r.function.parameters.required@.map_values(|s: String| s@) =~= browser_tool_schemas()[13].1);
    }
    r
}

fn predict_link_tool() -> (r: ToolDefinition)
    ensures
        tool_wf(r),
        r.function.name@ == "predict_link"@,
        r.function.name@ == browser_tool_list()[14],
        tool_has_schema(r, browser_tool_schemas()[14]),
{
    let mut props = StrMap::new();
    let mut prediction_type_param = param("string", "Type of prediction: 'tail' (h,r,?t), 'head' (?,r,t), 'relation' (h,?,t)");
    prediction_type_param.enum_values = Some(vec!["tail".to_owned(), "head".to_owned(), "relation".to_owned()]);
    let ghost kept = prediction_type_param;
    assert(kept.enum_values.unwrap()@.map_values(|s: String| s@) =~= seq!["tail"@, "head"@, "relation"@]);
    props.insert("prediction_type".to_owned(), prediction_type_param);
    props.insert("head".to_owned(), param("string", "Head entity URI (required for tail and relation prediction)"));
    props.insert("relation".to_owned(), param("string", "Relation URI (required for head and tail prediction)"));
    props.insert("tail".to_owned(), param("string", "Tail entity URI (required for head and relation prediction)"));
    props.insert("k".to_owned(), param("integer", "Number of top predictions to return (default: 5)"));
    let required = vec!["prediction_type".to_owned()];
    let r = function_tool("predict_link", "Predict missing links in the Knowledge Graph using ML embeddings", props, required);
    proof {
        reveal_strlit("prediction_type");
        reveal_strlit("head");
        reveal_strlit("relation");
        reveal_strlit("tail");
        reveal_strlit("k");
        assert("prediction_type"@.len() == 15);
        assert("head"@.len() == 4);
        assert("relation"@.len() == 8);
        assert(r.function.parameters.properties@["prediction_type"@] == kept);
        assert(r.function.parameters.properties@.dom() =~= browser_tool_schemas()[14].0.dom());
        assert(r.function.parameters.required@.map_values(|s: String| s@) =~= browser_tool_schemas()[14].1);
    }
    r
}

fn store_memory_tool() -> (r: ToolDefinition)
    ensures
        tool_wf(r),
        r.function.name@ == "store_memory"@,
        r.function.name@ == browser_tool_list()[15],
        tool_has_schema(r, browser_tool_schemas()[15]),
{
    let mut props = StrMap::new();
    props.insert("subject".to_owned(), param("string", "Subject URI for the triple"));
    props.insert("predicate".to_owned(), param("string", "Predicate URI for the triple"));
    props.insert("object".to_owned(), param("string", "Object URI or literal for the triple"));
    let required = vec!["subject".to_owned(), "predicate".to_owned(), "object".to_owned()];
    let r = function_tool("store_memory", "Store information in the Knowledge Graph for future reference", props, required);
    proof {
        reveal_strlit("subject");
        reveal_strlit("predicate");
        reveal_strlit("object");
        assert(r.function.parameters.properties@.dom() =~= browser_tool_schemas()[15].0.dom());
        assert(r.function.parameters.required@.map_values(|s: String| s@) =~= browser_tool_schemas()[15].1);
    }
    r
}

} // verus!
