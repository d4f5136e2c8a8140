use vstd::prelude::*;

use crate::parser_source_document::{DeviceParserSource, OsParserSource, UserAgentParserSource};

verus! {

/// The view of an optional string.
pub open spec fn opt_view(s: Option<String>) -> Option<Seq<char>> {
    match s {
        None => None,
        Some(v) => Some(v@),
    }
}

/// The pattern text once an optional inline flag has been folded into it:
/// unchanged without a flag, and `(?` flag `:` pattern `)` with one.
pub open spec fn flagged_regex(flag: Option<Seq<char>>, regex: Seq<char>) -> Seq<char> {
    match flag {
        None => regex,
        Some(f) => "(?"@ + f + ":"@ + regex + ")"@,
    }
}

/// A replacement template: the rule's own when it has one, else `default`.
pub open spec fn replacement_or(value: Option<Seq<char>>, default: Seq<char>) -> Seq<char> {
    match value {
        None => default,
        Some(v) => v,
    }
}

/// Folds `flag`, when present, into `regex` as an inline group modifier.
/// The flag text is inserted as it is, without checking it.
pub fn apply_regex_flag(flag: Option<String>, regex: String) -> (r: String)
    ensures
        r@ == flagged_regex(opt_view(flag), regex@),
        flag is None ==> r@ == regex@,
        flag matches Some(f) ==> r@ == "(?"@ + f@ + ":"@ + regex@ + ")"@,
{
    match flag {
        None => regex,
        Some(flg) => {
            let mut out = String::from_str("(?");
            out.append(flg.as_str());
            out.append(":");
            out.append(regex.as_str());
            out.append(")");
            out
        },
    }
}

fn fill_replacement(value: Option<String>, default: &str) -> (r: String)
    ensures
        r@ == replacement_or(opt_view(value), default@),
{
    match value {
        None => default.to_owned(),
        Some(v) => v,
    }
}

/// A device rule with every field present.
pub struct DeviceParserTarget {
    pub regex: String,
    pub device_replacement: String,
    pub brand_replacement: String,
    pub model_replacement: String,
}

impl DeviceParserTarget {
    /// `self` is what `source` becomes: the flag folded into the pattern, and
    /// each missing template replaced by its capture group (`$1`, `$2`, `$1`).
    pub open spec fn converted_from(self, source: DeviceParserSource) -> bool {
        &&& self.regex@ == flagged_regex(opt_view(source.regex_flag), source.regex@)
        &&& self.device_replacement@ == replacement_or(opt_view(source.device_replacement), "$1"@)
        &&& self.brand_replacement@ == replacement_or(opt_view(source.brand_replacement), "$2"@)
        &&& self.model_replacement@ == replacement_or(opt_view(source.model_replacement), "$1"@)
    }

    /// Fills in the device rule `value`.
    pub fn from_source(value: DeviceParserSource) -> (r: Self)
        ensures
            r.converted_from(value),
    {
        DeviceParserTarget {
            regex: apply_regex_flag(value.regex_flag, value.regex),
            device_replacement: fill_replacement(value.device_replacement, "$1"),
            brand_replacement: fill_replacement(value.brand_replacement, "$2"),
            model_replacement: fill_replacement(value.model_replacement, "$1"),
        }
    }
}

impl From<DeviceParserSource> for DeviceParserTarget {
    fn from(value: DeviceParserSource) -> (r: Self)
        ensures
            r.converted_from(value),
    {
        DeviceParserTarget::from_source(value)
    }
}

/// `from` states its result through `converted_from`: a spec value holding
/// `String`s cannot be written out, so no `from_spec` is promised here.
impl vstd::std_specs::convert::FromSpecImpl<DeviceParserSource> for DeviceParserTarget {
    open spec fn obeys_from_spec() -> bool {
        false
    }

    open spec fn from_spec(v: DeviceParserSource) -> Self {
        choose|t: DeviceParserTarget| t.converted_from(v)
    }
}

/// Converts a list of device rules one by one, keeping their order.
pub fn convert_device_rules(rules: Vec<DeviceParserSource>) -> (r: Vec<DeviceParserTarget>)
    ensures
        r@.len() == rules@.len(),
        rules@.len() == 0 ==> r@.len() == 0,
        forall|i: int| 0 <= i < rules@.len() ==> #[trigger] r@[i].converted_from(rules@[i]),
{
    let ghost src = rules@;
    let mut out: Vec<DeviceParserTarget> = Vec::new();
    for rule in it: rules.into_iter()
        invariant
            it.seq() == src,
            out@.len() == it.index(),
            forall|i: int| 0 <= i < out@.len() ==> #[trigger] out@[i].converted_from(src[i]),
    {
        out.push(DeviceParserTarget::from_source(rule));
    }
    out
}

/// An operating system rule with every field present.
pub struct OsParserTarget {
    pub regex: String,
    pub os_replacement: String,
    pub os_v1_replacement: String,
    pub os_v2_replacement: String,
    pub os_v3_replacement: String,
    pub os_v4_replacement: String,
}

impl OsParserTarget {
    /// `self` is what `source` becomes: the flag folded into the pattern, and
    /// each missing template replaced by its capture group, `$1` to `$5` in turn.
    pub open spec fn converted_from(self, source: OsParserSource) -> bool {
        &&& self.regex@ == flagged_regex(opt_view(source.regex_flag), source.regex@)
        &&& self.os_replacement@ == replacement_or(opt_view(source.os_replacement), "$1"@)
        &&& self.os_v1_replacement@ == replacement_or(opt_view(source.os_v1_replacement), "$2"@)
        &&& self.os_v2_replacement@ == replacement_or(opt_view(source.os_v2_replacement), "$3"@)
        &&& self.os_v3_replacement@ == replacement_or(opt_view(source.os_v3_replacement), "$4"@)
        &&& self.os_v4_replacement@ == replacement_or(opt_view(source.os_v4_replacement), "$5"@)
    }

    /// Fills in the operating system rule `value`.
    pub fn from_source(value: OsParserSource) -> (r: Self)
        ensures
            r.converted_from(value),
    {
        OsParserTarget {
            regex: apply_regex_flag(value.regex_flag, value.regex),
            os_replacement: fill_replacement(value.os_replacement, "$1"),
            os_v1_replacement: fill_replacement(value.os_v1_replacement, "$2"),
            os_v2_replacement: fill_replacement(value.os_v2_replacement, "$3"),
            os_v3_replacement: fill_replacement(value.os_v3_replacement, "$4"),
            os_v4_replacement: fill_replacement(value.os_v4_replacement, "$5"),
        }
    }
}

impl From<OsParserSource> for OsParserTarget {
    fn from(value: OsParserSource) -> (r: Self)
        ensures
            r.converted_from(value),
    {
        OsParserTarget::from_source(value)
    }
}

/// `from` states its result through `converted_from`; no `from_spec` is
/// promised here.
impl vstd::std_specs::convert::FromSpecImpl<OsParserSource> for OsParserTarget {
    open spec fn obeys_from_spec() -> bool {
        false
    }

    open spec fn from_spec(v: OsParserSource) -> Self {
        choose|t: OsParserTarget| t.converted_from(v)
    }
}

/// Converts a list of operating system rules one by one, keeping their order.
pub fn convert_os_rules(rules: Vec<OsParserSource>) -> (r: Vec<OsParserTarget>)
    ensures
        r@.len() == rules@.len(),
        rules@.len() == 0 ==> r@.len() == 0,
        forall|i: int| 0 <= i < rules@.len() ==> #[trigger] r@[i].converted_from(rules@[i]),
{
    let ghost src = rules@;
    let mut out: Vec<OsParserTarget> = Vec::new();
    for rule in it: rules.into_iter()
        invariant
            it.seq() == src,
            out@.len() == it.index(),
            forall|i: int| 0 <= i < out@.len() ==> #[trigger] out@[i].converted_from(src[i]),
    {
        out.push(OsParserTarget::from_source(rule));
    }
    out
}

/// A user agent rule with every field present.
pub struct UserAgentParserTarget {
    pub regex: String,
    pub family_replacement: String,
    pub v1_replacement: String,
    pub v2_replacement: String,
}

impl UserAgentParserTarget {
    /// `self` is what `source` becomes: the flag folded into the pattern, and
    /// each missing template replaced by its capture group, `$1` to `$3` in turn.
    pub open spec fn converted_from(self, source: UserAgentParserSource) -> bool {
        &&& self.regex@ == flagged_regex(opt_view(source.regex_flag), source.regex@)
        &&& self.family_replacement@ == replacement_or(opt_view(source.family_replacement), "$1"@)
        &&& self.v1_replacement@ == replacement_or(opt_view(source.v1_replacement), "$2"@)
        &&& self.v2_replacement@ == replacement_or(opt_view(source.v2_replacement), "$3"@)
    }

    /// Fills in the user agent rule `value`.
    pub fn from_source(value: UserAgentParserSource) -> (r: Self)
        ensures
            r.converted_from(value),
    {
        UserAgentParserTarget {
            regex: apply_regex_flag(value.regex_flag, value.regex),
            family_replacement: fill_replacement(value.family_replacement, "$1"),
            v1_replacement: fill_replacement(value.v1_replacement, "$2"),
            v2_replacement: fill_replacement(value.v2_replacement, "$3"),
        }
    }
}

impl From<UserAgentParserSource> for UserAgentParserTarget {
    fn from(value: UserAgentParserSource) -> (r: Self)
        ensures
            r.converted_from(value),
    {
        UserAgentParserTarget::from_source(value)
    }
}

/// `from` states its result through `converted_from`; no `from_spec` is
/// promised here.
impl vstd::std_specs::convert::FromSpecImpl<UserAgentParserSource> for UserAgentParserTarget {
    open spec fn obeys_from_spec() -> bool {
        false
    }

    open spec fn from_spec(v: UserAgentParserSource) -> Self {
        choose|t: UserAgentParserTarget| t.converted_from(v)
    }
}

/// Converts a list of user agent rules one by one, keeping their order.
pub fn convert_user_agent_rules(rules: Vec<UserAgentParserSource>) -> (r: Vec<UserAgentParserTarget>)
    ensures
        r@.len() == rules@.len(),
        rules@.len() == 0 ==> r@.len() == 0,
        forall|i: int| 0 <= i < rules@.len() ==> #[trigger] r@[i].converted_from(rules@[i]),
{
    let ghost src = rules@;
    let mut out: Vec<UserAgentParserTarget> = Vec::new();
    for rule in it: rules.into_iter()
        invariant
            it.seq() == src,
            out@.len() == it.index(),
            forall|i: int| 0 <= i < out@.len() ==> #[trigger] out@[i].converted_from(src[i]),
    {
        out.push(UserAgentParserTarget::from_source(rule));
    }
    out
}

/// A device rule's missing templates become `$1`, `$2` and `$1`; a template
/// that the rule gives is kept as it is.
pub proof fn lemma_device_defaults(source: DeviceParserSource, target: DeviceParserTarget)
    requires
        target.converted_from(source),
    ensures
        source.device_replacement is None ==> target.device_replacement@ == "$1"@,
        source.brand_replacement is None ==> target.brand_replacement@ == "$2"@,
        source.model_replacement is None ==> target.model_replacement@ == "$1"@,
        source.device_replacement matches Some(v) ==> target.device_replacement@ == v@,
        source.brand_replacement matches Some(v) ==> target.brand_replacement@ == v@,
        source.model_replacement matches Some(v) ==> target.model_replacement@ == v@,
{
}

/// An operating system rule's missing templates become `$1` to `$5` in
/// turn; a template that the rule gives is kept as it is.
pub proof fn lemma_os_defaults(source: OsParserSource, target: OsParserTarget)
    requires
        target.converted_from(source),
    ensures
        source.os_replacement is None ==> target.os_replacement@ == "$1"@,
        source.os_v1_replacement is None ==> target.os_v1_replacement@ == "$2"@,
        source.os_v2_replacement is None ==> target.os_v2_replacement@ == "$3"@,
        source.os_v3_replacement is None ==> target.os_v3_replacement@ == "$4"@,
        source.os_v4_replacement is None ==> target.os_v4_replacement@ == "$5"@,
        source.os_replacement matches Some(v) ==> target.os_replacement@ == v@,
        source.os_v1_replacement matches Some(v) ==> target.os_v1_replacement@ == v@,
        source.os_v2_replacement matches Some(v) ==> target.os_v2_replacement@ == v@,
        source.os_v3_replacement matches Some(v) ==> target.os_v3_replacement@ == v@,
        source.os_v4_replacement matches Some(v) ==> target.os_v4_replacement@ == v@,
{
}

/// A user agent rule's missing templates become `$1` to `$3` in turn; a
/// template that the rule gives is kept as it is.
pub proof fn lemma_user_agent_defaults(source: UserAgentParserSource, target: UserAgentParserTarget)
    requires
        target.converted_from(source),
    ensures
        source.family_replacement is None ==> target.family_replacement@ == "$1"@,
        source.v1_replacement is None ==> target.v1_replacement@ == "$2"@,
        source.v2_replacement is None ==> target.v2_replacement@ == "$3"@,
        source.family_replacement matches Some(v) ==> target.family_replacement@ == v@,
        source.v1_replacement matches Some(v) ==> target.v1_replacement@ == v@,
        source.v2_replacement matches Some(v) ==> target.v2_replacement@ == v@,
{
}

/// Whatever the category, a rule's pattern is kept as it is when it has no
/// flag, and becomes `(?` flag `:` pattern `)` when it has one.
pub proof fn lemma_regex_folding(flag: Option<String>, regex: String, folded: Seq<char>)
    requires
        folded == flagged_regex(opt_view(flag), regex@),
    ensures
        flag is None ==> folded == regex@,
        flag matches Some(f) ==> folded == "(?"@ + f@ + ":"@ + regex@ + ")"@,
{
}

} // verus!
