use vstd::prelude::*;

verus! {

/// How the model is asked to produce structured data.
#[allow(non_camel_case_types)]
#[derive(Debug, Clone, Copy, PartialEq, Eq, Structural)]
pub enum Mode {
    JSON,
    MD_JSON,
    JSON_SCHEMA,
    TOOLS,
}

/// The name of a mode as shown to users.
pub open spec fn mode_name(m: Mode) -> Seq<char> {
    match m {
        Mode::JSON => "json_mode"@,
        Mode::MD_JSON => "markdown_json_mode"@,
        Mode::JSON_SCHEMA => "json_schema_mode"@,
        Mode::TOOLS => "tools"@,
    }
}

impl Mode {
    /// The mode's name, as `"json_mode"` for `JSON`.
    pub fn as_str(&self) -> (r: &'static str)
        ensures
            r@ == mode_name(*self),
    {
        match self {
            Mode::JSON => "json_mode",
            Mode::MD_JSON => "markdown_json_mode",
            Mode::JSON_SCHEMA => "json_schema_mode",
            Mode::TOOLS => "tools",
        }
    }

    /// Whether the payload is carried by tool-call arguments rather than message text.
    pub fn is_tool_mode(&self) -> (r: bool)
        ensures
            r == (*self == Mode::TOOLS),
    {
        match self {
            Mode::TOOLS => true,
            _ => false,
        }
    }
}

} // verus!
