//! Tools to get system information: the current date and time, and the server's URL.

use crate::ids::Uuid;
use crate::provider::{LlmTool, LlmToolType};
use crate::text::{push_str, starts_with, str_eq, suffix_from};
use crate::tools::tool_core::{make_tool, tool_descs, ToolDesc, ToolError, ToolResponseFormat, ToolResult};
use vstd::prelude::*;

verus! {

pub const TOOL_PREFIX: &'static str = "system_";
pub const DATE_TIME_NAME: &'static str = "datetime_now";
pub const DATE_TIME_DESC: &'static str = "Get the current date and time in RFC3339 format. Do not request this tool unless you specifically need the date and/or time to answer a user query.";
pub const SERVER_URL_NAME: &'static str = "server_url";
pub const SERVER_URL_DESC: &'static str = "Get the URL of the server that this chat application is running on. This may be useful to help direct the user to files or other resources that are hosted on the server.";

pub open spec fn is_ascii_digit(c: char) -> bool {
    '0' <= c && c <= '9'
}

/// The shape of an RFC 3339 UTC date-time text as chrono writes it: at least 25 characters,
/// ending in the offset `+00:00`; the date and time start either with a four-digit year
/// (`YYYY-MM-DDTHH:MM:SS`), or, for a year past 9999, with an explicit `+` sign.
pub open spec fn rfc3339_utc_text(t: Seq<char>) -> bool {
    &&& t.len() >= 25
    &&& t.subrange(t.len() - 6, t.len() as int) == "+00:00"@
    &&& t[0] == '+' || {
        &&& is_ascii_digit(t[0]) && is_ascii_digit(t[1]) && is_ascii_digit(t[2]) && is_ascii_digit(t[3])
        &&& t[4] == '-'
        &&& is_ascii_digit(t[5]) && is_ascii_digit(t[6])
        &&& t[7] == '-'
        &&& is_ascii_digit(t[8]) && is_ascii_digit(t[9])
        &&& t[10] == 'T'
        &&& is_ascii_digit(t[11]) && is_ascii_digit(t[12])
        &&& t[13] == ':'
        &&& is_ascii_digit(t[14]) && is_ascii_digit(t[15])
        &&& t[16] == ':'
        &&& is_ascii_digit(t[17]) && is_ascii_digit(t[18])
    }
}

/// The current UTC date and time in RFC 3339 format, from `chrono::Utc::now().to_rfc3339()`.
/// The time depends on the clock, so only the text's shape is stated: chrono's `write_rfc3339`
/// writes the year (four digits, or signed past 9999), `-MM-DDTHH:MM:SS` with two digits each,
/// an optional fraction, and the zero offset as `+00:00`.
#[verifier::external_body]
fn now_rfc3339() -> (r: String)
    ensures
        rfc3339_utc_text(r@),
{
    chrono::Utc::now().to_rfc3339()
}

/// Tool to get system information.
#[derive(Debug)]
pub struct SystemInfo<'a> {
    pub server_address: &'a str,
}

/// Configuration of the system information tools; there is nothing to configure.
#[derive(Debug, Clone, Copy, PartialEq, Eq, Structural)]
pub struct SystemInfoConfig {}

/// The system information tools: `system_datetime_now` and `system_server_url`, both with the
/// given input schema.
pub open spec fn system_info_tools(tool_id: Uuid, schema: Seq<char>) -> Seq<ToolDesc> {
    seq![
        ToolDesc {
            name: TOOL_PREFIX@ + DATE_TIME_NAME@,
            description: DATE_TIME_DESC@,
            input_schema: schema,
            tool_id,
            tool_type: LlmToolType::System,
        },
        ToolDesc {
            name: TOOL_PREFIX@ + SERVER_URL_NAME@,
            description: SERVER_URL_DESC@,
            input_schema: schema,
            tool_id,
            tool_type: LlmToolType::System,
        },
    ]
}

impl SystemInfoConfig {
    /// The system information tools.
    pub fn get_llm_tools(&self, tool_id: Uuid, input_schema: &str) -> (r: Vec<LlmTool>)
        ensures
            tool_descs(r@) == system_info_tools(tool_id, input_schema@),
    {
        let mut date_time = TOOL_PREFIX.to_string();
        push_str(&mut date_time, DATE_TIME_NAME);
        let mut server_url = TOOL_PREFIX.to_string();
        push_str(&mut server_url, SERVER_URL_NAME);
        let mut tools: Vec<LlmTool> = Vec::new();
        tools.push(make_tool(date_time.as_str(), DATE_TIME_DESC, input_schema, tool_id, LlmToolType::System));
        tools.push(make_tool(server_url.as_str(), SERVER_URL_DESC, input_schema, tool_id, LlmToolType::System));
        assert(tool_descs(tools@) =~= system_info_tools(tool_id, input_schema@));
        tools
    }

    /// Checks the configuration; it is always valid.
    pub fn validate(&self) -> (r: ToolResult<()>)
        ensures
            r is Ok,
    {
        Ok(())
    }
}

impl<'a> SystemInfo<'a> {
    pub fn new(server_address: &'a str) -> (r: Self)
        ensures
            r.server_address == server_address,
    {
        SystemInfo { server_address }
    }

    /// Run a system information tool: the current date and time, or the server's URL, as text. A
    /// name that is not `system_` followed by a tool's name is `ToolNotFound`.
    pub fn execute(&self, tool_name: &str) -> (r: ToolResult<(String, ToolResponseFormat)>)
        ensures
            tool_name@ == TOOL_PREFIX@ + DATE_TIME_NAME@ ==> (r matches Ok((t, f)) && rfc3339_utc_text(t@)
                && f == ToolResponseFormat::Text),
            tool_name@ == TOOL_PREFIX@ + SERVER_URL_NAME@ ==> (r matches Ok((t, f)) && t@ == self.server_address@ && f == ToolResponseFormat::Text),
            tool_name@ != TOOL_PREFIX@ + DATE_TIME_NAME@ && tool_name@ != TOOL_PREFIX@ + SERVER_URL_NAME@ ==> (r matches Err(ToolError::ToolNotFound)),
    {
        proof {
            reveal_strlit("system_");
            reveal_strlit("datetime_now");
            reveal_strlit("server_url");
        }
        if !starts_with(tool_name, TOOL_PREFIX) {
            proof {
                assert((TOOL_PREFIX@ + DATE_TIME_NAME@).subrange(0, 7) =~= TOOL_PREFIX@);
                assert((TOOL_PREFIX@ + SERVER_URL_NAME@).subrange(0, 7) =~= TOOL_PREFIX@);
            }
            return Err(ToolError::ToolNotFound);
        }
        let rest = suffix_from(tool_name, 7);
        assert(tool_name@ == TOOL_PREFIX@ + rest@);
        if str_eq(rest.as_str(), DATE_TIME_NAME) {
            proof {
                if tool_name@ == TOOL_PREFIX@ + SERVER_URL_NAME@ {
                    assert(rest@ =~= SERVER_URL_NAME@);
                }
            }
            Ok((now_rfc3339(), ToolResponseFormat::Text))
        } else if str_eq(rest.as_str(), SERVER_URL_NAME) {
            Ok((self.server_address.to_string(), ToolResponseFormat::Text))
        } else {
            proof {
                assert(tool_name@ != TOOL_PREFIX@ + DATE_TIME_NAME@) by {
                    if tool_name@ == TOOL_PREFIX@ + DATE_TIME_NAME@ {
                        assert(rest@ =~= DATE_TIME_NAME@);
                    }
                }
                assert(tool_name@ != TOOL_PREFIX@ + SERVER_URL_NAME@) by {
                    if tool_name@ == TOOL_PREFIX@ + SERVER_URL_NAME@ {
                        assert(rest@ =~= SERVER_URL_NAME@);
                    }
                }
            }
            Err(ToolError::ToolNotFound)
        }
    }
}

} // verus!
