//! Routing of the Model Context Protocol server: which JSON-RPC requests it
//! serves, and when.
//!
//! The server reads one JSON-RPC message per line; this module decides, from the
//! method name and whether the session has been initialized, what answers it.
use vstd::prelude::*;
use crate::json::{is_json_object, json_is_object, json_member, json_member_string};
use crate::text::str_eq;

verus! {

/// JSON-RPC error: the message is not JSON.
pub const PARSE_ERROR: i64 = -32700;
/// JSON-RPC error: the method does not exist.
pub const METHOD_NOT_FOUND: i64 = -32601;
/// JSON-RPC error: the parameters are invalid.
pub const INVALID_PARAMS: i64 = -32602;
/// JSON-RPC error: the result could not be encoded.
pub const INTERNAL_ERROR: i64 = -32603;
/// MCP error: a request came before initialization.
pub const NOT_INITIALIZED: i64 = -32002;

/// Protocol version the server speaks.
pub const MCP_PROTOCOL_VERSION: &'static str = "2025-06-18";
/// Name of the server.
pub const SERVER_NAME: &'static str = "semantic-browser-mcp";

/// What answers a request.
#[derive(Debug, Clone, PartialEq, Eq)]
pub enum McpRoute {
    /// `initialize`: check the parameters, then complete the initialization.
    Initialize,
    /// `ping`: an empty result.
    Ping,
    /// `tools/list`: the list of tools.
    ListTools,
    /// `tools/call`: run the named tool.
    CallTool,
    /// An error response with this code and message.
    Refuse { code: i64, message: String },
}

/// The tools the server offers.
#[derive(Debug, Clone, Copy, PartialEq, Eq, Structural)]
pub enum McpTool {
    ParseHtml,
    QueryKg,
    BrowseUrl,
}

/// What answers a request for `method`: `initialize` and `ping` always, the tool
/// methods only once the session is initialized, and anything else an error.
pub open spec fn route_of(initialized: bool, method: Seq<char>) -> (Option<nat>, i64, Seq<char>) {
    if method == "initialize"@ {
        (Some(0), 0, Seq::empty())
    } else if method == "ping"@ {
        (Some(1), 0, Seq::empty())
    } else if method == "tools/list"@ || method == "tools/call"@ {
        if !initialized {
            (None, NOT_INITIALIZED, "Server not initialized"@)
        } else if method == "tools/list"@ {
            (Some(2), 0, Seq::empty())
        } else {
            (Some(3), 0, Seq::empty())
        }
    } else {
        (None, METHOD_NOT_FOUND, "Method not found"@)
    }
}

/// The route as the triple of [`route_of`].
pub open spec fn route_view(r: McpRoute) -> (Option<nat>, i64, Seq<char>) {
    match r {
        McpRoute::Initialize => (Some(0), 0, Seq::empty()),
        McpRoute::Ping => (Some(1), 0, Seq::empty()),
        McpRoute::ListTools => (Some(2), 0, Seq::empty()),
        McpRoute::CallTool => (Some(3), 0, Seq::empty()),
        McpRoute::Refuse { code, message } => (None, code, message@),
    }
}

/// The tool of a name.
pub open spec fn tool_of(name: Seq<char>) -> Option<McpTool> {
    if name == "semanticbrowser.parse_html"@ {
        Some(McpTool::ParseHtml)
    } else if name == "semanticbrowser.query_kg"@ {
        Some(McpTool::QueryKg)
    } else if name == "semanticbrowser.browse_url"@ {
        Some(McpTool::BrowseUrl)
    } else {
        None
    }
}

/// The tool called `name`, if the server has one.
pub fn tool_by_name(name: &str) -> (r: Option<McpTool>)
    ensures
        r == tool_of(name@),
{
    if str_eq(name, "semanticbrowser.parse_html") {
        Some(McpTool::ParseHtml)
    } else if str_eq(name, "semanticbrowser.query_kg") {
        Some(McpTool::QueryKg)
    } else if str_eq(name, "semanticbrowser.browse_url") {
        Some(McpTool::BrowseUrl)
    } else {
        None
    }
}

/// The state of a session with one client.
#[derive(Debug, Clone, Copy)]
pub struct McpSession {
    pub initialized: bool,
}

impl McpSession {
    /// A session that has not been initialized.
    pub fn new() -> (r: Self)
        ensures
            !r.initialized,
    {
        McpSession { initialized: false }
    }

    /// What answers a request for `method`.
    pub fn route_request(&self, method: &str) -> (r: McpRoute)
        ensures
            route_view(r) == route_of(self.initialized, method@),
    {
        if str_eq(method, "initialize") {
            McpRoute::Initialize
        } else if str_eq(method, "ping") {
            McpRoute::Ping
        } else if str_eq(method, "tools/list") || str_eq(method, "tools/call") {
            if !self.initialized {
                McpRoute::Refuse { code: NOT_INITIALIZED, message: "Server not initialized".to_owned() }
            } else if str_eq(method, "tools/list") {
                McpRoute::ListTools
            } else {
                McpRoute::CallTool
            }
        } else {
            McpRoute::Refuse { code: METHOD_NOT_FOUND, message: "Method not found".to_owned() }
        }
    }

    /// Marks the session initialized once an `initialize` request was accepted.
    pub fn complete_initialize(&mut self)
        ensures
            final(self).initialized,
    {
        self.initialized = true;
    }

    /// Handles a notification: `notifications/initialized` initializes the
    /// session; any other notification changes nothing.
    pub fn on_notification(&mut self, method: &str)
        ensures
            final(self).initialized == (old(self).initialized || method@ == "notifications/initialized"@),
    {
        if str_eq(method, "notifications/initialized") {
            self.initialized = true;
        }
    }
}

/// Law: until the session is initialized, `tools/list` and `tools/call` are
/// refused with `NOT_INITIALIZED`; once it is, they are served, and it stays
/// initialized whatever notification follows.
pub proof fn law_tools_need_initialization(initialized: bool, method: Seq<char>, note: Seq<char>)
    requires
        method == "tools/list"@ || method == "tools/call"@,
    ensures
        !initialized ==> route_of(initialized, method) == (None::<nat>, NOT_INITIALIZED, "Server not initialized"@),
        initialized ==> route_of(initialized, method).0 is Some,
        (initialized || note == "notifications/initialized"@) ==> route_of(true, method).0 is Some,
{
    reveal_strlit("initialize");
    reveal_strlit("ping");
    reveal_strlit("tools/list");
    reveal_strlit("tools/call");
    assert("tools/list"@[0] != "initialize"@[0]);
    assert("tools/list"@[0] != "ping"@[0]);
    assert("tools/call"@[0] != "initialize"@[0]);
    assert("tools/call"@[0] != "ping"@[0]);
}

/// An error answer: its code and message.
#[derive(Debug, Clone, PartialEq, Eq)]
pub struct McpError {
    pub code: i64,
    pub message: String,
}

/// The parameters of a request as a JSON text: absent parameters are the empty
/// object.
pub open spec fn params_text(params: Option<Seq<char>>) -> Seq<char> {
    match params {
        Some(p) => p,
        None => "{}"@,
    }
}

/// Whether `initialize` accepts its parameters: they must be an object with a
/// string `protocolVersion`.
pub open spec fn initialize_check(params: Option<Seq<char>>) -> Result<(), (i64, Seq<char>)> {
    let p = params_text(params);
    if !json_is_object(p) {
        Err((INVALID_PARAMS, "Invalid params for initialize"@))
    } else if json_member_string(p, "protocolVersion"@) is None {
        Err((INVALID_PARAMS, "Missing protocolVersion"@))
    } else {
        Ok(())
    }
}

/// Which tool `tools/call` names: its parameters must be an object with a string
/// `name` that names a tool of the server.
pub open spec fn call_target(params: Option<Seq<char>>) -> Result<McpTool, (i64, Seq<char>)> {
    let p = params_text(params);
    if !json_is_object(p) {
        Err((INVALID_PARAMS, "Invalid params for tools/call"@))
    } else {
        match json_member_string(p, "name"@) {
            None => Err((INVALID_PARAMS, "Missing tool name"@)),
            Some(n) => match tool_of(n) {
                Some(t) => Ok(t),
                None => Err((METHOD_NOT_FOUND, "Unknown tool"@)),
            },
        }
    }
}

/// An error as values.
pub open spec fn mcp_error_view(e: McpError) -> (i64, Seq<char>) {
    (e.code, e.message@)
}

fn refuse(code: i64, message: &str) -> (r: McpError)
    ensures
        r.code == code,
        r.message@ == message@,
{
    McpError { code, message: message.to_owned() }
}

/// Checks the parameters (a JSON text, if any) of an `initialize` request.
pub fn check_initialize(params: Option<&str>) -> (r: Result<(), McpError>)
    ensures
        match initialize_check(match params { Some(p) => Some(p@), None => None }) {
            Ok(()) => r is Ok,
            Err(e) => r matches Err(x) && mcp_error_view(x) == e,
        },
{
    let p = match params {
        Some(p) => p,
        None => "{}",
    };
    if !is_json_object(p) {
        return Err(refuse(INVALID_PARAMS, "Invalid params for initialize"));
    }
    match json_member(p, "protocolVersion") {
        Some(_) => Ok(()),
        None => Err(refuse(INVALID_PARAMS, "Missing protocolVersion")),
    }
}

/// The tool that a `tools/call` request names in its parameters (a JSON text, if
/// any).
pub fn tool_to_call(params: Option<&str>) -> (r: Result<McpTool, McpError>)
    ensures
        match call_target(match params { Some(p) => Some(p@), None => None }) {
            Ok(t) => r == Ok::<McpTool, McpError>(t),
            Err(e) => r matches Err(x) && mcp_error_view(x) == e,
        },
{
    let p = match params {
        Some(p) => p,
        None => "{}",
    };
    if !is_json_object(p) {
        return Err(refuse(INVALID_PARAMS, "Invalid params for tools/call"));
    }
    match json_member(p, "name") {
        None => Err(refuse(INVALID_PARAMS, "Missing tool name")),
        Some(n) => match tool_by_name(n.as_str()) {
            Some(t) => Ok(t),
            None => Err(refuse(METHOD_NOT_FOUND, "Unknown tool")),
        },
    }
}

/// An input parameter of a tool the server offers.
#[derive(Debug, Clone)]
pub struct McpProperty {
    pub name: String,
    /// Its JSON type.
    pub prop_type: String,
    /// Its JSON-schema `format`, if any.
    pub format: Option<String>,
    pub description: String,
    /// Its default value as a JSON string, if any.
    pub default_value: Option<String>,
}

/// A tool as the `tools/list` answer describes it.
#[derive(Debug, Clone)]
pub struct McpToolInfo {
    pub name: String,
    pub description: String,
    /// The annotations: a title and the behaviour hints (absent ones left out).
    pub title: String,
    pub read_only: bool,
    pub destructive: Option<bool>,
    pub idempotent: Option<bool>,
    pub open_world: bool,
    /// The input schema: an object with these properties, of which these are required.
    pub properties: Vec<McpProperty>,
    pub required: Vec<String>,
    /// The output schema, as a JSON text.
    pub output_schema: &'static str,
}

/// A parameter as its name and type.
pub open spec fn property_view(p: McpProperty) -> (Seq<char>, Seq<char>) {
    (p.name@, p.prop_type@)
}

/// What the contract of the tool list fixes of a tool: its name, its input
/// parameters (name and type), its required parameters, and its hints
/// (read-only, destructive, idempotent, open-world).
pub open spec fn tool_info_view(t: McpToolInfo) -> (
    Seq<char>,
    Seq<(Seq<char>, Seq<char>)>,
    Seq<Seq<char>>,
    (bool, Option<bool>, Option<bool>, bool),
) {
    (
        t.name@,
        t.properties@.map_values(|p: McpProperty| property_view(p)),
        t.required@.map_values(|s: String| s@),
        (t.read_only, t.destructive, t.idempotent, t.open_world),
    )
}

/// The texts of a parameter: its description, format and default.
pub open spec fn property_texts(p: McpProperty) -> (Seq<char>, Option<Seq<char>>, Option<Seq<char>>) {
    (
        p.description@,
        match p.format {
            Some(f) => Some(f@),
            None => None,
        },
        match p.default_value {
            Some(d) => Some(d@),
            None => None,
        },
    )
}

/// The texts of a tool: its description, its title, its output schema, and the
/// texts of its parameters.
pub open spec fn tool_texts_view(t: McpToolInfo) -> (
    Seq<char>,
    Seq<char>,
    Seq<char>,
    Seq<(Seq<char>, Option<Seq<char>>, Option<Seq<char>>)>,
) {
    (t.description@, t.title@, t.output_schema@, t.properties@.map_values(|p: McpProperty| property_texts(p)))
}

/// The texts of the server's tools, in the order `tools/list` gives them.
pub open spec fn mcp_tool_texts() -> Seq<(Seq<char>, Seq<char>, Seq<char>, Seq<(Seq<char>, Option<Seq<char>>, Option<Seq<char>>)>)> {
    seq![
        (
            "Parse HTML content and extract semantic annotations."@,
            "Parse HTML"@,
            PARSE_HTML_OUTPUT@,
            seq![("Raw HTML content to parse."@, None, None)],
        ),
        (
            "Execute read or write operations against the Semantic Browser knowledge graph."@,
            "Knowledge Graph Query"@,
            QUERY_KG_OUTPUT@,
            seq![("SPARQL query or update statement."@, None, None)],
        ),
        (
            "Fetch a URL and summarize semantic signals relevant to a query."@,
            "Browse URL"@,
            BROWSE_URL_OUTPUT@,
            seq![
                ("Target URL to browse."@, Some("uri"@), None),
                ("Optional focus or extraction instruction."@, None, Some(""@)),
            ],
        ),
    ]
}

/// The output schema of the HTML parsing tool.
pub const PARSE_HTML_OUTPUT: &'static str = "{\"type\":\"object\",\"properties\":{\"title\":{\"type\":[\"string\",\"null\"]},\"microdata\":{\"type\":\"array\",\"items\":{\"type\":\"object\"}},\"jsonLd\":{\"type\":\"array\",\"items\":{\"type\":\"object\"}}}}";

/// The output schema of the knowledge-graph tool.
pub const QUERY_KG_OUTPUT: &'static str = "{\"type\":\"object\",\"properties\":{\"results\":{\"type\":\"array\",\"items\":{\"type\":\"string\"}},\"status\":{\"type\":\"string\"}}}";

/// The output schema of the browsing tool.
pub const BROWSE_URL_OUTPUT: &'static str = "{\"type\":\"object\",\"properties\":{\"url\":{\"type\":\"string\"},\"summary\":{\"type\":\"string\"}}}";

/// The tools of the server, in the order `tools/list` gives them.
pub open spec fn mcp_tool_views() -> Seq<(Seq<char>, Seq<(Seq<char>, Seq<char>)>, Seq<Seq<char>>, (bool, Option<bool>, Option<bool>, bool))> {
    seq![
        ("semanticbrowser.parse_html"@, seq![("html"@, "string"@)], seq!["html"@], (true, None, None, false)),
        (
            "semanticbrowser.query_kg"@,
            seq![("query"@, "string"@)],
            seq!["query"@],
            (false, Some(false), Some(false), false),
        ),
        (
            "semanticbrowser.browse_url"@,
            seq![("url"@, "string"@), ("query"@, "string"@)],
            seq!["url"@],
            (true, None, None, true),
        ),
    ]
}

/// A parameter.
fn property(name: &str, prop_type: &str, format: Option<&str>, description: &str, default_value: Option<&str>) -> (r: McpProperty)
    ensures
        property_view(r) == (name@, prop_type@),
        property_texts(r) == (
            description@,
            match format {
                Some(f) => Some(f@),
                None => None::<Seq<char>>,
            },
            match default_value {
                Some(d) => Some(d@),
                None => None::<Seq<char>>,
            },
        ),
{
    McpProperty {
        name: name.to_owned(),
        prop_type: prop_type.to_owned(),
        format: match format {
            Some(f) => Some(f.to_owned()),
            None => None,
        },
        description: description.to_owned(),
        default_value: match default_value {
            Some(d) => Some(d.to_owned()),
            None => None,
        },
    }
}

/// The tools that `tools/list` answers with: parsing HTML, querying the
/// knowledge graph, and browsing a URL.
pub fn mcp_tools() -> (r: Vec<McpToolInfo>)
    ensures
        r@.map_values(|t: McpToolInfo| tool_info_view(t)) == mcp_tool_views(),
        r@.map_values(|t: McpToolInfo| tool_texts_view(t)) == mcp_tool_texts(),
{
    let parse_html = McpToolInfo {
        name: "semanticbrowser.parse_html".to_owned(),
        description: "Parse HTML content and extract semantic annotations.".to_owned(),
        title: "Parse HTML".to_owned(),
        read_only: true,
        destructive: None,
        idempotent: None,
        open_world: false,
        properties: vec![property("html", "string", None, "Raw HTML content to parse.", None)],
        required: vec!["html".to_owned()],
        output_schema: PARSE_HTML_OUTPUT,
    };
    let query_kg = McpToolInfo {
        name: "semanticbrowser.query_kg".to_owned(),
        description: "Execute read or write operations against the Semantic Browser knowledge graph.".to_owned(),
        title: "Knowledge Graph Query".to_owned(),
        read_only: false,
        destructive: Some(false),
        idempotent: Some(false),
        open_world: false,
        properties: vec![property("query", "string", None, "SPARQL query or update statement.", None)],
        required: vec!["query".to_owned()],
        output_schema: QUERY_KG_OUTPUT,
    };
    let browse_url = McpToolInfo {
        name: "semanticbrowser.browse_url".to_owned(),
        description: "Fetch a URL and summarize semantic signals relevant to a query.".to_owned(),
        title: "Browse URL".to_owned(),
        read_only: true,
        destructive: None,
        idempotent: None,
        open_world: true,
        properties: vec![
            property("url", "string", Some("uri"), "Target URL to browse.", None),
            property("query", "string", None, "Optional focus or extraction instruction.", Some("")),
        ],
        required: vec!["url".to_owned()],
        output_schema: BROWSE_URL_OUTPUT,
    };
    proof {
        assert(tool_texts_view(parse_html) == mcp_tool_texts()[0]) by {
            assert(parse_html.properties@.map_values(|p: McpProperty| property_texts(p)) =~= mcp_tool_texts()[0].3);
        }
        assert(tool_info_view(parse_html) == mcp_tool_views()[0]) by {
            assert(parse_html.properties@.map_values(|p: McpProperty| property_view(p)) =~= mcp_tool_views()[0].1);
            assert(parse_html.required@.map_values(|s: String| s@) =~= mcp_tool_views()[0].2);
        }
        assert(tool_texts_view(query_kg) == mcp_tool_texts()[1]) by {
            assert(query_kg.properties@.map_values(|p: McpProperty| property_texts(p)) =~= mcp_tool_texts()[1].3);
        }
        assert(tool_info_view(query_kg) == mcp_tool_views()[1]) by {
            assert(query_kg.properties@.map_values(|p: McpProperty| property_view(p)) =~= mcp_tool_views()[1].1);
            assert(query_kg.required@.map_values(|s: String| s@) =~= mcp_tool_views()[1].2);
        }
        assert(tool_texts_view(browse_url) == mcp_tool_texts()[2]) by {
            assert(browse_url.properties@.map_values(|p: McpProperty| property_texts(p)) =~= mcp_tool_texts()[2].3);
        }
        assert(tool_info_view(browse_url) == mcp_tool_views()[2]) by {
            assert(browse_url.properties@.map_values(|p: McpProperty| property_view(p)) =~= mcp_tool_views()[2].1);
            assert(browse_url.required@.map_values(|s: String| s@) =~= mcp_tool_views()[2].2);
        }
    }
    let r = vec![parse_html, query_kg, browse_url];
    assert(r@.map_values(|t: McpToolInfo| tool_info_view(t)) =~= mcp_tool_views());
    assert(r@.map_values(|t: McpToolInfo| tool_texts_view(t)) =~= mcp_tool_texts());
    r
}

} // verus!
