use vstd::prelude::*;

verus! {

/// A device rule as the rule set writes it: only `regex` is required.
pub struct DeviceParserSource {
    pub regex: String,
    pub regex_flag: Option<String>,
    pub device_replacement: Option<String>,
    pub brand_replacement: Option<String>,
    pub model_replacement: Option<String>,
}

/// An operating system rule as the rule set writes it.
pub struct OsParserSource {
    pub regex: String,
    pub regex_flag: Option<String>,
    pub os_replacement: Option<String>,
    pub os_v1_replacement: Option<String>,
    pub os_v2_replacement: Option<String>,
    pub os_v3_replacement: Option<String>,
    pub os_v4_replacement: Option<String>,
}

/// A user agent (browser) rule as the rule set writes it.
pub struct UserAgentParserSource {
    pub regex: String,
    pub regex_flag: Option<String>,
    pub family_replacement: Option<String>,
    pub v1_replacement: Option<String>,
    pub v2_replacement: Option<String>,
}

/// The whole rule set: one ordered list of rules per category.
pub struct ParserSourceDocument {
    pub device_parsers: Vec<DeviceParserSource>,
    pub os_parsers: Vec<OsParserSource>,
    pub user_agent_parsers: Vec<UserAgentParserSource>,
}

} // verus!
