//! Application settings, identifiers and the project store.

use vstd::prelude::*;
use vstd::string::StringSliceAdditionalSpecFns;
use crate::text::{
    append_str, ascii_hex, byte_len, ascii_lower, chars_eq, chars_of, contains_str, has_sub, is_ascii_hex,
    join3, lower_char, push_str, str_views, string_of, trim, trim_ws, eq_str, slice, has_char,
};

verus! {

/// Top-level application settings.
pub struct AppSettings {
    pub default_model: String,
    pub reasoning_effort: String,
    pub yolo_default: bool,
    pub theme: String,
    pub sidebar_collapsed: bool,
    pub right_panel_open: bool,
    /// Optional override for the Grok binary path (empty: resolve from PATH).
    pub grok_binary: String,
    /// Optional override for the managed attachment directory (empty: app data).
    pub temp_images_dir: String,
    pub last_project_id: Option<String>,
    /// When false, only high-level status is shown; when true, raw CLI output.
    pub verbose_mode: bool,
    /// Keep Grok's planning behaviour; false passes `--no-plan`.
    pub plan_mode: bool,
    pub disable_web_search: bool,
    pub subagents_enabled: bool,
    pub memory_enabled: bool,
    pub permission_mode: String,
    pub tools: String,
    pub disallowed_tools: String,
    pub allow_rules: String,
    pub deny_rules: String,
    pub extra_rules: String,
    pub max_turns: String,
    /// Disable optional telemetry sinks and stop a turn on a repository-upload event.
    pub privacy_guard_enabled: bool,
}

/// `s` holds the default settings.
pub open spec fn is_default_settings(s: AppSettings) -> bool {
    &&& s.default_model@ == "grok-4.5"@
    &&& s.reasoning_effort@ == "high"@
    &&& !s.yolo_default
    &&& s.theme@ == "dark"@
    &&& !s.sidebar_collapsed
    &&& !s.right_panel_open
    &&& s.grok_binary@ == Seq::<char>::empty()
    &&& s.temp_images_dir@ == Seq::<char>::empty()
    &&& s.last_project_id is None
    &&& !s.verbose_mode
    &&& s.plan_mode
    &&& !s.disable_web_search
    &&& s.subagents_enabled
    &&& !s.memory_enabled
    &&& s.permission_mode@ == "default"@
    &&& s.tools@ == Seq::<char>::empty()
    &&& s.disallowed_tools@ == Seq::<char>::empty()
    &&& s.allow_rules@ == Seq::<char>::empty()
    &&& s.deny_rules@ == Seq::<char>::empty()
    &&& s.extra_rules@ == Seq::<char>::empty()
    &&& s.max_turns@ == Seq::<char>::empty()
    &&& s.privacy_guard_enabled
}

impl Default for AppSettings {
    fn default() -> (s: Self)
        ensures
            is_default_settings(s),
    {
        AppSettings {
            default_model: String::from_str("grok-4.5"),
            reasoning_effort: String::from_str("high"),
            yolo_default: false,
            theme: String::from_str("dark"),
            sidebar_collapsed: false,
            right_panel_open: false,
            grok_binary: String::new(),
            temp_images_dir: String::new(),
            last_project_id: None,
            verbose_mode: false,
            plan_mode: true,
            disable_web_search: false,
            subagents_enabled: true,
            memory_enabled: false,
            permission_mode: String::from_str("default"),
            tools: String::new(),
            disallowed_tools: String::new(),
            allow_rules: String::new(),
            deny_rules: String::new(),
            extra_rules: String::new(),
            max_turns: String::new(),
            privacy_guard_enabled: true,
        }
    }
}

/// The error that `validate_id` reports for `id`, if any.
pub open spec fn id_error(id: Seq<char>, kind: Seq<char>) -> Option<Seq<char>> {
    if id.len() == 0 || vstd::utf8::encode_utf8(id).len() > 64 {
        Some("Invalid "@ + kind + " id"@)
    } else if !(forall|i: int| 0 <= i < id.len() ==> is_ascii_hex(#[trigger] id[i]) || id[i] == '-') {
        Some("Invalid "@ + kind + " id (expected UUID-like characters only)"@)
    } else if has_sub(id, ".."@) {
        Some("Invalid "@ + kind + " id"@)
    } else {
        None
    }
}

/// Checks that `id` is safe as a file name: non-empty, at most 64 bytes, made of
/// hexadecimal digits and hyphens only.
pub fn validate_id(id: &str, kind: &str) -> (r: Result<(), String>)
    ensures
        r is Ok <==> id_error(id@, kind@) is None,
        r matches Err(e) ==> id_error(id@, kind@) == Some(e@),
{
    let v = chars_of(id);
    if v.len() == 0 || byte_len(id) > 64 {
        return Err(join3("Invalid ", kind, " id"));
    }
    let mut i: usize = 0;
    while i < v.len()
        invariant
            v@ == id@,
            id@.len() > 0,
            id.spec_bytes().len() <= 64,
            i <= v.len(),
            forall|j: int| 0 <= j < i ==> is_ascii_hex(#[trigger] v@[j]) || v@[j] == '-',
        decreases v.len() - i,
    {
        if !(ascii_hex(v[i]) || v[i] == '-') {
            assert(!(is_ascii_hex(id@[i as int]) || id@[i as int] == '-'));
            return Err(join3("Invalid ", kind, " id (expected UUID-like characters only)"));
        }
        i += 1;
    }
    assert(forall|j: int| 0 <= j < id@.len() ==> is_ascii_hex(#[trigger] id@[j]) || id@[j] == '-');
    if contains_str(&v, "..") {
        return Err(join3("Invalid ", kind, " id"));
    }
    Ok(())
}

/// Two paths name the same folder. With Windows rules, `/` and `\` are the same
/// separator and ASCII letters compare without regard to case; otherwise the
/// paths must be identical.
pub open spec fn same_path(left: Seq<char>, right: Seq<char>, windows: bool) -> bool {
    if windows {
        path_key(left) == path_key(right)
    } else {
        left == right
    }
}

/// The form of a Windows path compared by `same_path`.
pub open spec fn path_key(s: Seq<char>) -> Seq<char> {
    s.map_values(|c: char| if c == '/' { '\\' } else { ascii_lower(c) })
}

fn path_key_exec(s: &str) -> (r: Vec<char>)
    ensures
        r@ == path_key(s@),
{
    let v = chars_of(s);
    let mut r: Vec<char> = Vec::new();
    let mut i: usize = 0;
    while i < v.len()
        invariant
            v@ == s@,
            i <= v.len(),
            r@ == path_key(v@.subrange(0, i as int)),
        decreases v.len() - i,
    {
        let c = if v[i] == '/' { '\\' } else { lower_char(v[i]) };
        r.push(c);
        assert(path_key(v@.subrange(0, i + 1)) =~= path_key(v@.subrange(0, i as int)).push(c));
        i += 1;
    }
    assert(v@.subrange(0, v.len() as int) =~= v@);
    r
}

/// Whether two stored project paths name the same folder (see `same_path`).
pub fn paths_equal(left: &str, right: &str, windows: bool) -> (r: bool)
    ensures
        r == same_path(left@, right@, windows),
{
    if windows {
        let a = path_key_exec(left);
        let b = path_key_exec(right);
        chars_eq(&a, &b)
    } else {
        let a = chars_of(left);
        let b = chars_of(right);
        chars_eq(&a, &b)
    }
}

/// Known Grok model identifiers for the model selector.
pub fn default_models() -> (r: Vec<String>)
    ensures
        str_views(r@) == seq!["grok-4.5"@, "grok-composer-2.5-fast"@],
{
    let mut r: Vec<String> = Vec::new();
    push_str(&mut r, "grok-4.5");
    push_str(&mut r, "grok-composer-2.5-fast");
    r
}

/// `c` is an ASCII decimal digit.
pub open spec fn is_digit(c: char) -> bool {
    '0' <= c && c <= '9'
}

/// The value of a string of decimal digits.
pub open spec fn digits_value(d: Seq<char>) -> nat
    decreases d.len(),
{
    if d.len() == 0 {
        0
    } else {
        digits_value(d.drop_last()) * 10 + ((d.last() as int) - ('0' as int)) as nat
    }
}

/// What `str::parse::<u32>` gives for `s`: an optional `+` sign followed by at
/// least one decimal digit, with a value that fits in 32 bits.
pub open spec fn parsed_u32(s: Seq<char>) -> Option<nat> {
    let d = unsigned_digits(s);
    if d.len() == 0 || !all_digit_chars(d) {
        None
    } else if digits_value(d) > 4294967295 {
        None
    } else {
        Some(digits_value(d))
    }
}

fn all_digits(d: &Vec<char>) -> (r: bool)
    ensures
        r == (forall|i: int| 0 <= i < d@.len() ==> is_digit(#[trigger] d@[i])),
{
    let mut i: usize = 0;
    while i < d.len()
        invariant
            i <= d.len(),
            forall|j: int| 0 <= j < i ==> is_digit(#[trigger] d@[j]),
        decreases d.len() - i,
    {
        if !('0' <= d[i] && d[i] <= '9') {
            assert(!is_digit(d@[i as int]));
            return false;
        }
        i += 1;
    }
    true
}

/// The value of a string of digits, or `2^32` when it does not fit in 32 bits.
fn capped_value(d: &Vec<char>) -> (r: u64)
    requires
        forall|i: int| 0 <= i < d@.len() ==> is_digit(#[trigger] d@[i]),
    ensures
        r == (if digits_value(d@) > 4294967295 { 4294967296 } else { digits_value(d@) }),
{
    let mut acc: u64 = 0;
    let mut i: usize = 0;
    assert(d@.subrange(0, 0) =~= Seq::<char>::empty());
    while i < d.len()
        invariant
            i <= d.len(),
            forall|j: int| 0 <= j < d@.len() ==> is_digit(#[trigger] d@[j]),
            acc == (if digits_value(d@.subrange(0, i as int)) > 4294967295 {
                4294967296
            } else {
                digits_value(d@.subrange(0, i as int))
            }),
        decreases d.len() - i,
    {
        let c = d[i];
        assert(is_digit(d@[i as int]));
        let ghost prefix = d@.subrange(0, i as int);
        let ghost next = d@.subrange(0, i + 1);
        assert(next.drop_last() =~= prefix);
        assert(next.last() == c);
        let digit: u64 = (c as u32 - 48) as u64;
        assert(digits_value(next) == digits_value(prefix) * 10 + digit);
        if acc > 4294967295 {
            acc = 4294967296;
        } else {
            acc = acc * 10 + digit;
            if acc > 4294967295 {
                acc = 4294967296;
            }
        }
        i += 1;
    }
    assert(d@.subrange(0, d.len() as int) =~= d@);
    acc
}

/// `s` without one leading `+`.
pub open spec fn unsigned_digits(s: Seq<char>) -> Seq<char> {
    if s.len() > 0 && s[0] == '+' {
        s.drop_first()
    } else {
        s
    }
}

/// Every character of `d` is a decimal digit.
pub open spec fn all_digit_chars(d: Seq<char>) -> bool {
    forall|i: int| 0 <= i < d.len() ==> is_digit(#[trigger] d[i])
}

/// Parses a decimal `u32` (see `parsed_u32`).
pub fn parse_u32(s: &Vec<char>) -> (r: Option<u32>)
    ensures
        match parsed_u32(s@) {
            Some(v) => r == Some(v as u32),
            None => r is None,
        },
{
    let d: Vec<char> = if s.len() > 0 && s[0] == '+' {
        slice(s, 1, s.len())
    } else {
        s.clone()
    };
    assert(d@ =~= unsigned_digits(s@));
    if d.len() == 0 || !all_digits(&d) {
        return None;
    }
    let v = capped_value(&d);
    if v > 4294967295 {
        None
    } else {
        Some(v as u32)
    }
}

/// `v` holds a NUL, a line feed or a carriage return.
pub open spec fn has_line_break_or_nul(v: Seq<char>) -> bool {
    v.contains('\0') || v.contains('\n') || v.contains('\r')
}

/// The error for a free-form setting value, if any: over 2000 bytes, or holding
/// a NUL or a line break.
pub open spec fn field_error(label: Seq<char>, v: Seq<char>) -> Option<Seq<char>> {
    if vstd::utf8::encode_utf8(v).len() > 2000 || has_line_break_or_nul(v) {
        Some("Invalid "@ + label + " value"@)
    } else {
        None
    }
}

/// The first error among several, in order.
pub open spec fn first_error(a: Option<Seq<char>>, b: Option<Seq<char>>) -> Option<Seq<char>> {
    if a is Some {
        a
    } else {
        b
    }
}

/// The error for settings about to be saved, if any, checked on the trimmed
/// values in this order: the default model (non-blank, at most 64 bytes), the
/// reasoning effort, the permission mode, the turn limit (a number from 1 to
/// 200 when given), the four tool and rule lists, then the extra rules (at most
/// 4000 bytes, no NUL).
pub open spec fn settings_error(s: AppSettings) -> Option<Seq<char>> {
    first_error(choices_error(s), lists_error(s))
}

/// The errors of the default model, reasoning effort, permission mode and turn
/// limit, in order.
pub open spec fn choices_error(s: AppSettings) -> Option<Seq<char>> {
    let effort = trim_ws(s.reasoning_effort@);
    let mode = trim_ws(s.permission_mode@);
    let turns = trim_ws(s.max_turns@);
    let extra = trim_ws(s.extra_rules@);
    if trim_ws(s.default_model@).len() == 0 || vstd::utf8::encode_utf8(s.default_model@).len() > 64 {
        Some("Invalid default model"@)
    } else if !(effort == "low"@ || effort == "medium"@ || effort == "high"@) {
        Some("Invalid reasoning effort"@)
    } else if !(mode == "default"@ || mode == "acceptEdits"@ || mode == "auto"@ || mode
        == "dontAsk"@ || mode == "bypassPermissions"@ || mode == "plan"@) {
        Some("Invalid permission mode"@)
    } else if turns.len() > 0 && parsed_u32(turns) is None {
        Some("Max turns must be a number"@)
    } else if turns.len() > 0 && (parsed_u32(turns) == Some(0nat) || parsed_u32(turns)->0 > 200) {
        Some("Max turns must be between 1 and 200"@)
    } else {
        None
    }
}

fn check_field(label: &str, v: &Vec<char>) -> (r: Result<(), String>)
    ensures
        match field_error(label@, v@) {
            Some(e) => r matches Err(x) && x@ == e,
            None => r is Ok,
        },
{
    let s = string_of(v);
    if byte_len(s.as_str()) > 2000 || has_char(v, '\0') || has_char(v, '\n') || has_char(v, '\r') {
        return Err(join3("Invalid ", label, " value"));
    }
    Ok(())
}

fn trimmed(s: &String) -> (r: Vec<char>)
    ensures
        r@ == trim_ws(s@),
{
    let v = chars_of(s.as_str());
    trim(&v)
}

/// The errors of the free-form lists and rules, in order.
pub open spec fn lists_error(s: AppSettings) -> Option<Seq<char>> {
    let extra = trim_ws(s.extra_rules@);
    first_error(
        field_error("tools"@, trim_ws(s.tools@)),
        first_error(
            field_error("disallowed tools"@, trim_ws(s.disallowed_tools@)),
            first_error(
                field_error("allow rules"@, trim_ws(s.allow_rules@)),
                first_error(
                    field_error("deny rules"@, trim_ws(s.deny_rules@)),
                    if vstd::utf8::encode_utf8(extra).len() > 4000 || extra.contains('\0') {
                        Some("Invalid extra rules value"@)
                    } else {
                        None
                    },
                ),
            ),
        ),
    )
}

fn check_lists(settings: &AppSettings) -> (r: Result<(), String>)
    ensures
        match lists_error(*settings) {
            Some(e) => r matches Err(x) && x@ == e,
            None => r is Ok,
        },
{
    let tools = trimmed(&settings.tools);
    let disallowed = trimmed(&settings.disallowed_tools);
    let allow = trimmed(&settings.allow_rules);
    let deny = trimmed(&settings.deny_rules);
    let extra = trimmed(&settings.extra_rules);
    check_field("tools", &tools)?;
    check_field("disallowed tools", &disallowed)?;
    check_field("allow rules", &allow)?;
    check_field("deny rules", &deny)?;
    let extra_s = string_of(&extra);
    if byte_len(extra_s.as_str()) > 4000 || has_char(&extra, '\0') {
        return Err(String::from_str("Invalid extra rules value"));
    }
    Ok(())
}

fn check_choices(settings: &AppSettings) -> (r: Result<(), String>)
    ensures
        match choices_error(*settings) {
            Some(e) => r matches Err(x) && x@ == e,
            None => r is Ok,
        },
{
    let effort = trimmed(&settings.reasoning_effort);
    let mode = trimmed(&settings.permission_mode);
    let turns = trimmed(&settings.max_turns);
    let model = trimmed(&settings.default_model);
    if model.len() == 0 || byte_len(settings.default_model.as_str()) > 64 {
        return Err(String::from_str("Invalid default model"));
    }
    if !(eq_str(&effort, "low") || eq_str(&effort, "medium") || eq_str(&effort, "high")) {
        return Err(String::from_str("Invalid reasoning effort"));
    }
    if !(eq_str(&mode, "default") || eq_str(&mode, "acceptEdits") || eq_str(&mode, "auto")
        || eq_str(&mode, "dontAsk") || eq_str(&mode, "bypassPermissions") || eq_str(&mode, "plan")) {
        return Err(String::from_str("Invalid permission mode"));
    }
    if turns.len() > 0 {
        match parse_u32(&turns) {
            None => {
                return Err(String::from_str("Max turns must be a number"));
            },
            Some(n) => {
                if n == 0 || n > 200 {
                    return Err(String::from_str("Max turns must be between 1 and 200"));
                }
            },
        }
    }
    Ok(())
}

/// `n` is `s` as saved: the path overrides, modes, tool lists, rules and turn
/// limit trimmed, everything else as it was.
pub open spec fn saved_settings(s: AppSettings, n: AppSettings) -> bool {
    &&& n.grok_binary@ == trim_ws(s.grok_binary@)
    &&& n.temp_images_dir@ == trim_ws(s.temp_images_dir@)
    &&& n.permission_mode@ == trim_ws(s.permission_mode@)
    &&& n.reasoning_effort@ == trim_ws(s.reasoning_effort@)
    &&& n.tools@ == trim_ws(s.tools@)
    &&& n.disallowed_tools@ == trim_ws(s.disallowed_tools@)
    &&& n.allow_rules@ == trim_ws(s.allow_rules@)
    &&& n.deny_rules@ == trim_ws(s.deny_rules@)
    &&& n.extra_rules@ == trim_ws(s.extra_rules@)
    &&& n.max_turns@ == trim_ws(s.max_turns@)
    &&& n.default_model == s.default_model
    &&& n.yolo_default == s.yolo_default
    &&& n.theme == s.theme
    &&& n.sidebar_collapsed == s.sidebar_collapsed
    &&& n.right_panel_open == s.right_panel_open
    &&& n.last_project_id == s.last_project_id
    &&& n.verbose_mode == s.verbose_mode
    &&& n.plan_mode == s.plan_mode
    &&& n.disable_web_search == s.disable_web_search
    &&& n.subagents_enabled == s.subagents_enabled
    &&& n.memory_enabled == s.memory_enabled
    &&& n.privacy_guard_enabled == s.privacy_guard_enabled
}

/// Checks settings before they are saved (see `settings_error`) and gives them
/// back with the path overrides, modes, tool lists, rules and turn limit trimmed.
/// Checking that a binary override or attachment folder exists is left to the caller.
pub fn save_settings(settings: AppSettings) -> (r: Result<AppSettings, String>)
    ensures
        match settings_error(settings) {
            Some(e) => r matches Err(x) && x@ == e,
            None => r matches Ok(n) && saved_settings(settings, n),
        },
{
    check_choices(&settings)?;
    check_lists(&settings)?;
    let grok_binary = trimmed(&settings.grok_binary);
    let temp_images_dir = trimmed(&settings.temp_images_dir);
    let mode = trimmed(&settings.permission_mode);
    let effort = trimmed(&settings.reasoning_effort);
    let tools = trimmed(&settings.tools);
    let disallowed = trimmed(&settings.disallowed_tools);
    let allow = trimmed(&settings.allow_rules);
    let deny = trimmed(&settings.deny_rules);
    let extra = trimmed(&settings.extra_rules);
    let turns = trimmed(&settings.max_turns);
    let mut n = settings;
    n.grok_binary = string_of(&grok_binary);
    n.temp_images_dir = string_of(&temp_images_dir);
    n.permission_mode = string_of(&mode);
    n.reasoning_effort = string_of(&effort);
    n.tools = string_of(&tools);
    n.disallowed_tools = string_of(&disallowed);
    n.allow_rules = string_of(&allow);
    n.deny_rules = string_of(&deny);
    n.extra_rules = string_of(&extra);
    n.max_turns = string_of(&turns);
    Ok(n)
}


/// The folder for managed attachments chosen in the settings: none when the
/// setting is blank (the default folder is used); refused when it has a `..`
/// component; else the trimmed setting.
pub fn temp_images_override(dir: &str) -> (r: Result<Option<String>, String>)
    ensures
        trim_ws(dir@).len() == 0 ==> r == Ok::<Option<String>, String>(None),
        trim_ws(dir@).len() > 0 && crate::paths::has_parent_dir(trim_ws(dir@)) ==> (r matches Err(e)
            && e@ == "temp_images_dir must not contain '..'"@),
        trim_ws(dir@).len() > 0 && !crate::paths::has_parent_dir(trim_ws(dir@)) ==> (r matches Ok(
            Some(d),
        ) && d@ == trim_ws(dir@)),
{
    let t = crate::text::trim_str(dir);
    let tv = chars_of(t.as_str());
    if tv.len() == 0 {
        return Ok(None);
    }
    if crate::paths::has_parent_component(t.as_str()) {
        return Err(String::from_str("temp_images_dir must not contain '..'"));
    }
    Ok(Some(t))
}


/// The models offered to the interface.
pub struct ModelsResponse {
    pub models: Vec<String>,
}

/// The models offered to the interface (see `default_models`).
pub fn get_models() -> (r: ModelsResponse)
    ensures
        str_views(r.models@) == seq!["grok-4.5"@, "grok-composer-2.5-fast"@],
{
    ModelsResponse { models: default_models() }
}

/// The device names Windows reserves, which no folder may be named after.
pub open spec fn reserved_device(stem: Seq<char>) -> bool {
    stem == "CON"@ || stem == "PRN"@ || stem == "AUX"@ || stem == "NUL"@ || stem == "COM1"@ || stem
        == "COM2"@ || stem == "COM3"@ || stem == "COM4"@ || stem == "COM5"@ || stem == "COM6"@
        || stem == "COM7"@ || stem == "COM8"@ || stem == "COM9"@ || stem == "LPT1"@ || stem
        == "LPT2"@ || stem == "LPT3"@ || stem == "LPT4"@ || stem == "LPT5"@ || stem == "LPT6"@
        || stem == "LPT7"@ || stem == "LPT8"@ || stem == "LPT9"@
}

/// The ASCII upper-case form of `c`; other characters are unchanged.
pub open spec fn ascii_upper(c: char) -> char {
    if 'a' <= c && c <= 'z' {
        ((c as u32) - 32) as char
    } else {
        c
    }
}

/// A character no folder name may hold: a control character or one of
/// `<>:"/\|?*`.
pub open spec fn forbidden_name_char(c: char) -> bool {
    crate::text::is_control(c) || c == '<' || c == '>' || c == ':' || c == '"' || c == '/' || c
        == '\\' || c == '|' || c == '?' || c == '*'
}

/// A new project folder may be named `name` (already trimmed): not empty, at
/// most 128 bytes, not `.` or `..`, not ending in a dot or space, not a
/// reserved device name before its first dot (in any ASCII case), and without
/// forbidden characters.
pub open spec fn folder_name_ok(name: Seq<char>) -> bool {
    let stem = crate::text::before_first(name, '.').map_values(|c: char| ascii_upper(c));
    &&& name.len() > 0
    &&& vstd::utf8::encode_utf8(name).len() <= 128
    &&& name != "."@ && name != ".."@
    &&& name.last() != '.' && name.last() != ' '
    &&& !reserved_device(stem)
    &&& forall|i: int| 0 <= i < name.len() ==> !forbidden_name_char(#[trigger] name[i])
}

/// Checks the name of a new project folder (see `folder_name_ok`, on the
/// trimmed name); gives the trimmed name.
pub fn project_folder_name(name: &str) -> (r: Result<String, String>)
    ensures
        folder_name_ok(trim_ws(name@)) ==> (r matches Ok(n) && n@ == trim_ws(name@)),
        !folder_name_ok(trim_ws(name@)) ==> (r matches Err(e) && e@
            == "Use a valid folder name without Windows-reserved characters"@),
{
    let v = chars_of(name);
    let t = trim(&v);
    let ts = string_of(&t);
    let stem = crate::text::take_before(&t, '.');
    let mut upper: Vec<char> = Vec::new();
    let mut i: usize = 0;
    while i < stem.len()
        invariant
            i <= stem.len(),
            upper@ == stem@.take(i as int).map_values(|c: char| ascii_upper(c)),
        decreases stem.len() - i,
    {
        let c = stem[i];
        let u = if 'a' <= c && c <= 'z' {
            let code: u32 = (c as u32) - 32;
            crate::text::char_from_ascii_code(code)
        } else {
            c
        };
        upper.push(u);
        assert(stem@.take(i + 1).map_values(|c: char| ascii_upper(c)) =~= stem@.take(
            i as int,
        ).map_values(|c: char| ascii_upper(c)).push(ascii_upper(stem@[i as int])));
        i += 1;
    }
    assert(stem@.take(stem.len() as int) =~= stem@);
    let reserved = eq_str(&upper, "CON") || eq_str(&upper, "PRN") || eq_str(&upper, "AUX")
        || eq_str(&upper, "NUL") || eq_str(&upper, "COM1") || eq_str(&upper, "COM2") || eq_str(
        &upper,
        "COM3",
    ) || eq_str(&upper, "COM4") || eq_str(&upper, "COM5") || eq_str(&upper, "COM6") || eq_str(
        &upper,
        "COM7",
    ) || eq_str(&upper, "COM8") || eq_str(&upper, "COM9") || eq_str(&upper, "LPT1") || eq_str(
        &upper,
        "LPT2",
    ) || eq_str(&upper, "LPT3") || eq_str(&upper, "LPT4") || eq_str(&upper, "LPT5") || eq_str(
        &upper,
        "LPT6",
    ) || eq_str(&upper, "LPT7") || eq_str(&upper, "LPT8") || eq_str(&upper, "LPT9");
    let mut bad_char = false;
    let mut k: usize = 0;
    while k < t.len()
        invariant
            k <= t.len(),
            !bad_char ==> forall|j: int| 0 <= j < k ==> !forbidden_name_char(#[trigger] t@[j]),
            bad_char ==> exists|j: int| 0 <= j < t@.len() && forbidden_name_char(#[trigger] t@[j]),
        decreases t.len() - k,
    {
        let c = t[k];
        if crate::text::control(c) || c == '<' || c == '>' || c == ':' || c == '"' || c == '/' || c
            == '\\' || c == '|' || c == '?' || c == '*' {
            assert(forbidden_name_char(t@[k as int]));
            bad_char = true;
        }
        k += 1;
    }
    if t.len() == 0 || crate::text::byte_len(ts.as_str()) > 128 || eq_str(&t, ".") || eq_str(&t, "..")
        || t[t.len() - 1] == '.' || t[t.len() - 1] == ' ' || reserved || bad_char {
        return Err(String::from_str("Use a valid folder name without Windows-reserved characters"));
    }
    Ok(ts)
}

} // verus!
