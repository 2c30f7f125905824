//! Version bindings: the `tool@version` token, the per-directory marker and
//! global binding files, the project configuration file, and the resolver
//! that picks the binding that applies.

use vstd::prelude::*;
use crate::text::{
    first_index_of, find_char, slice_string, str_eq, strip_quotes, trim_ws, trimmed, CharClass,
};

verus! {

/// What `parse_tool_version` answers for a `tool@version` token.
pub open spec fn spec_tool_version(s: Seq<char>) -> Result<(Seq<char>, Seq<char>), Seq<char>> {
    match first_index_of(s, '@') {
        None => Err(MISSING_AT_MSG@),
        Some(p) => {
            let tool = s.subrange(0, p);
            let version = s.subrange(p + 1, s.len() as int);
            if tool.len() == 0 {
                Err(EMPTY_TOOL_MSG@)
            } else if version.len() == 0 {
                Err(EMPTY_VERSION_MSG@)
            } else {
                Ok((tool, version))
            }
        },
    }
}

pub const MISSING_AT_MSG: &'static str = "Version must be specified with @, e.g., 'node@16.14.0'";

pub const EMPTY_TOOL_MSG: &'static str = "Tool name cannot be empty";

pub const EMPTY_VERSION_MSG: &'static str = "Version cannot be empty";

/// Splits `tool@version` at its first `@`. Both parts must be non-empty;
/// the version keeps any later `@`.
pub fn parse_tool_version(s: &str) -> (r: Result<(String, String), String>)
    ensures
        r matches Ok((t, v)) ==> spec_tool_version(s@) == Ok::<(Seq<char>, Seq<char>), Seq<char>>((t@, v@)),
        r matches Err(e) ==> spec_tool_version(s@) == Err::<(Seq<char>, Seq<char>), Seq<char>>(e@),
{
    match find_char(s, '@') {
        None => Err(String::from_str(MISSING_AT_MSG)),
        Some(p) => {
            let n = s.unicode_len();
            let tool = slice_string(s, 0, p);
            let version = slice_string(s, p + 1, n);
            if tool.unicode_len() == 0 {
                Err(String::from_str(EMPTY_TOOL_MSG))
            } else if version.unicode_len() == 0 {
                Err(String::from_str(EMPTY_VERSION_MSG))
            } else {
                Ok((tool, version))
            }
        },
    }
}

/// A version read from a binding file.
#[derive(Debug, Clone, PartialEq, Eq)]
pub struct Binding {
    pub version: String,
    /// The file held `other@version` for another tool than the one asked for.
    pub tool_mismatch: bool,
}

/// The version that a binding file's content names for `tool`, and whether
/// it named another tool: the content is trimmed; `tool@version` gives the
/// part after the first `@`, a bare token gives itself without surrounding
/// double quotes. An empty version is no binding.
pub open spec fn spec_binding(content: Seq<char>, tool: Seq<char>) -> Option<(Seq<char>, bool)> {
    let t = trim_ws(content);
    let (version, mismatch) = match first_index_of(t, '@') {
        Some(p) => (t.subrange(p + 1, t.len() as int), t.subrange(0, p) != tool),
        None => (strip_quotes(t), false),
    };
    if version.len() == 0 {
        None
    } else {
        Some((version, mismatch))
    }
}

/// Reads a binding file's content; `None` when it names no version.
pub fn parse_binding(content: &str, tool: &str) -> (r: Option<Binding>)
    ensures
        r matches Some(b) ==> spec_binding(content@, tool@) == Some((b.version@, b.tool_mismatch)),
        r is None ==> spec_binding(content@, tool@) is None,
{
    let t = trimmed(content, CharClass::Whitespace);
    let (version, mismatch) = match find_char(t.as_str(), '@') {
        Some(p) => {
            let n = t.as_str().unicode_len();
            let v = slice_string(t.as_str(), p + 1, n);
            let owner = slice_string(t.as_str(), 0, p);
            (v, !str_eq(owner.as_str(), tool))
        },
        None => (trimmed(t.as_str(), CharClass::Quote), false),
    };
    if version.as_str().unicode_len() == 0 {
        None
    } else {
        Some(Binding { version, tool_mismatch: mismatch })
    }
}

/// The value of one `key = value` line of a project file for `tool`:
/// blank lines and lines starting with `#` hold nothing; key and value are
/// trimmed, and the value loses its surrounding double quotes.
pub open spec fn spec_rc_line(line: Seq<char>, tool: Seq<char>) -> Option<Seq<char>> {
    let t = trim_ws(line);
    if t.len() == 0 || t[0] == '#' {
        None
    } else {
        match first_index_of(t, '=') {
            None => None,
            Some(p) => {
                let key = trim_ws(t.subrange(0, p));
                let value = strip_quotes(trim_ws(t.subrange(p + 1, t.len() as int)));
                if key == tool && value.len() > 0 {
                    Some(value)
                } else {
                    None
                }
            },
        }
    }
}

/// End of the first line of `s`: the index of its first newline, or its length.
pub open spec fn first_line_end(s: Seq<char>) -> int {
    match first_index_of(s, '\n') {
        Some(p) => p,
        None => s.len() as int,
    }
}

pub proof fn lemma_first_line_end(s: Seq<char>)
    ensures
        0 <= first_line_end(s) <= s.len(),
{
    crate::text::lemma_first_index_of(s, '\n');
}

/// The first line of a project file in the `key = value` format that gives
/// a version for `tool`.
pub open spec fn spec_rc_lines(s: Seq<char>, tool: Seq<char>) -> Option<Seq<char>>
    decreases s.len(),
{
    if s.len() == 0 {
        None
    } else {
        let e = first_line_end(s);
        if 0 <= e <= s.len() {
            match spec_rc_line(s.subrange(0, e), tool) {
                Some(v) => Some(v),
                None => if e < s.len() {
                    spec_rc_lines(s.subrange(e + 1, s.len() as int), tool)
                } else {
                    None
                },
            }
        } else {
            None
        }
    }
}

/// Reads one `key = value` line for `tool`.
pub fn rc_line_value(line: &str, tool: &str) -> (r: Option<String>)
    ensures
        r matches Some(v) ==> spec_rc_line(line@, tool@) == Some(v@),
        r is None ==> spec_rc_line(line@, tool@) is None,
{
    let t = trimmed(line, CharClass::Whitespace);
    let n = t.as_str().unicode_len();
    if n == 0 || t.as_str().get_char(0) == '#' {
        return None;
    }
    match find_char(t.as_str(), '=') {
        None => None,
        Some(p) => {
            let key_part = slice_string(t.as_str(), 0, p);
            let key = trimmed(key_part.as_str(), CharClass::Whitespace);
            let value_part = slice_string(t.as_str(), p + 1, n);
            let value_ws = trimmed(value_part.as_str(), CharClass::Whitespace);
            let value = trimmed(value_ws.as_str(), CharClass::Quote);
            if str_eq(key.as_str(), tool) && value.as_str().unicode_len() > 0 {
                Some(value)
            } else {
                None
            }
        },
    }
}

/// Reads a project file in the `key = value` format: the first line that
/// gives a version for `tool` wins.
pub fn rc_lines_value(content: &str, tool: &str) -> (r: Option<String>)
    ensures
        r matches Some(v) ==> spec_rc_lines(content@, tool@) == Some(v@),
        r is None ==> spec_rc_lines(content@, tool@) is None,
{
    let mut rest: String = String::from_str(content);
    loop
        invariant
            spec_rc_lines(content@, tool@) == spec_rc_lines(rest@, tool@),
        decreases rest@.len(),
    {
        let n = rest.as_str().unicode_len();
        if n == 0 {
            return None;
        }
        proof {
            lemma_first_line_end(rest@);
        }
        let e: usize = match find_char(rest.as_str(), '\n') {
            Some(p) => p,
            None => n,
        };
        let line = slice_string(rest.as_str(), 0, e);
        match rc_line_value(line.as_str(), tool) {
            Some(v) => {
                return Some(v);
            },
            None => {},
        }
        if e == n {
            return None;
        }
        rest = slice_string(rest.as_str(), e + 1, n);
    }
}


#[verifier::external_type_specification]
#[verifier::external_body]
#[verifier::reject_recursive_types(K)]
#[verifier::reject_recursive_types(V)]
pub struct ExTomlMap<K, V>(toml::map::Map<K, V>);

#[verifier::external_type_specification]
#[verifier::external_body]
pub struct ExTomlValue(toml::Value);

/// Whether the `toml` crate accepts a text as a TOML document.
pub uninterp spec fn toml_accepts(text: Seq<char>) -> bool;

/// The string values of the TOML document a text holds, by their key path
/// through nested tables.
pub uninterp spec fn toml_doc_strings(text: Seq<char>) -> Map<Seq<Seq<char>>, Seq<char>>;

/// The string values a TOML table holds, by their key path through nested
/// tables.
pub uninterp spec fn toml_strings(t: toml::Table) -> Map<Seq<Seq<char>>, Seq<char>>;

/// Relies on `toml::from_str`: reads a TOML document into its top-level
/// table, and fails exactly on a text that is no TOML document.
#[verifier::external_body]
fn parse_toml_table(text: &str) -> (r: Option<toml::Table>)
    ensures
        r is Some == toml_accepts(text@),
        r matches Some(t) ==> toml_strings(t) == toml_doc_strings(text@),
{
    toml::from_str::<toml::Table>(text).ok()
}

/// What a TOML table holds under one key.
pub enum TomlEntry {
    Missing,
    Text(String),
    Table(toml::Table),
    Other,
}

/// Relies on `toml::map::Map::get`: the value stored under `key`, told
/// apart as a string, a table or anything else. A string is the value at
/// the path `[key]`; a table holds what lies below `key`; nothing else
/// holds a string at or below `key`.
#[verifier::external_body]
fn toml_entry(table: &toml::Table, key: &str) -> (r: TomlEntry)
    ensures
        r matches TomlEntry::Text(s) ==> toml_strings(*table).contains_key(seq![key@])
            && toml_strings(*table)[seq![key@]] == s@,
        !(r is Text) ==> !toml_strings(*table).contains_key(seq![key@]),
        r matches TomlEntry::Table(inner) ==> forall|p: Seq<Seq<char>>| #[trigger] toml_strings(inner).contains_key(p)
            == toml_strings(*table).contains_key(seq![key@] + p),
        r matches TomlEntry::Table(inner) ==> forall|p: Seq<Seq<char>>| #[trigger] toml_strings(inner).contains_key(p)
            ==> toml_strings(inner)[p] == toml_strings(*table)[seq![key@] + p],
        !(r is Table) ==> forall|p: Seq<Seq<char>>| p.len() > 0
            ==> !#[trigger] toml_strings(*table).contains_key(seq![key@] + p),
{
    match table.get(key) {
        Some(toml::Value::String(s)) => TomlEntry::Text(s.clone()),
        Some(toml::Value::Table(t)) => TomlEntry::Table(t.clone()),
        Some(_) => TomlEntry::Other,
        None => TomlEntry::Missing,
    }
}

/// The version a TOML project file gives for `tool`: the string at
/// `tools.<tool>` without surrounding double quotes, if that is not empty.
pub open spec fn spec_toml_rc(text: Seq<char>, tool: Seq<char>) -> Option<Seq<char>> {
    let m = toml_doc_strings(text);
    let k = seq!["tools"@, tool];
    if m.contains_key(k) && strip_quotes(m[k]).len() > 0 {
        Some(strip_quotes(m[k]))
    } else {
        None
    }
}

/// The version one project file gives for `tool`: read as TOML where it is
/// a TOML document, else line by line as `key = value`.
pub open spec fn spec_rc(text: Seq<char>, tool: Seq<char>) -> Option<Seq<char>> {
    if toml_accepts(text) {
        spec_toml_rc(text, tool)
    } else {
        spec_rc_lines(text, tool)
    }
}

/// The version that one project file gives for `tool`. A TOML document is
/// read at `tools.<tool>`, a string without its surrounding double quotes;
/// any other text is read line by line as `key = value`. An empty version
/// counts as none.
pub fn rc_value(content: &str, tool: &str) -> (r: Option<String>)
    ensures
        opt_string_view(r) == spec_rc(content@, tool@),
        r matches Some(v) ==> v@.len() > 0 && strip_quotes(v@) == v@,
{
    match parse_toml_table(content) {
        Some(doc) => {
            let ghost k = seq!["tools"@, tool@];
            assert(seq!["tools"@] + seq![tool@] =~= k);
            match toml_entry(&doc, "tools") {
                TomlEntry::Table(tools) => match toml_entry(&tools, tool) {
                    TomlEntry::Text(s) => {
                        assert(toml_strings(tools).contains_key(seq![tool@]));
                        let v = trimmed(s.as_str(), CharClass::Quote);
                        proof {
                            crate::text::lemma_trim_idempotent(s@, CharClass::Quote);
                        }
                        if v.as_str().unicode_len() == 0 {
                            None
                        } else {
                            Some(v)
                        }
                    },
                    _ => {
                        assert(!toml_strings(tools).contains_key(seq![tool@]));
                        None
                    },
                },
                _ => {
                    assert(!toml_strings(doc).contains_key(seq!["tools"@] + seq![tool@]));
                    None
                },
            }
        },
        None => {
            let r = rc_lines_value(content, tool);
            proof {
                lemma_rc_lines_unquoted(content@, tool@);
            }
            r
        },
    }
}

/// A version found by the `key = value` reading carries no outer quotes.
pub proof fn lemma_rc_lines_unquoted(s: Seq<char>, tool: Seq<char>)
    ensures
        spec_rc_lines(s, tool) matches Some(v) ==> v.len() > 0 && strip_quotes(v) == v,
    decreases s.len(),
{
    if s.len() > 0 {
        let e = first_line_end(s);
        lemma_first_line_end(s);
        let t = trim_ws(s.subrange(0, e));
        if t.len() > 0 && t[0] != '#' {
            if let Some(p) = first_index_of(t, '=') {
                crate::text::lemma_first_index_of(t, '=');
                crate::text::lemma_trim_idempotent(trim_ws(t.subrange(p + 1, t.len() as int)), CharClass::Quote);
            }
        }
        if e < s.len() {
            lemma_rc_lines_unquoted(s.subrange(e + 1, s.len() as int), tool);
        }
    }
}

/// The contents of the project files, nearest first, as texts.
pub open spec fn files_view(files: Seq<Option<String>>) -> Seq<Option<Seq<char>>> {
    files.map_values(|o: Option<String>| opt_string_view(o))
}

/// The first project file, nearest first, that gives a version for `tool`.
pub open spec fn spec_first_rc(files: Seq<Option<Seq<char>>>, tool: Seq<char>) -> Option<Seq<char>>
    decreases files.len(),
{
    if files.len() == 0 {
        None
    } else {
        match files[0] {
            Some(c) => match spec_rc(c, tool) {
                Some(v) => Some(v),
                None => spec_first_rc(files.drop_first(), tool),
            },
            None => spec_first_rc(files.drop_first(), tool),
        }
    }
}

/// The version given by the nearest project file. `files` holds the
/// content of the project file of the working directory and of each of its
/// ancestors, nearest first, `None` where a directory has none; the first
/// file that gives a version for `tool` wins.
pub fn find_project_version(tool: &str, files: &Vec<Option<String>>) -> (r: Option<String>)
    ensures
        opt_string_view(r) == spec_first_rc(files_view(files@), tool@),
        r matches Some(v) ==> v@.len() > 0,
{
    let n = files.len();
    let ghost all = files_view(files@);
    let mut i: usize = 0;
    assert(all.subrange(0, n as int) =~= all);
    while i < n
        invariant
            n == files@.len(),
            all == files_view(files@),
            i <= n,
            spec_first_rc(all, tool@) == spec_first_rc(all.subrange(i as int, n as int), tool@),
        decreases n - i,
    {
        let ghost rest = all.subrange(i as int, n as int);
        assert(rest.drop_first() =~= all.subrange(i + 1, n as int));
        match &files[i] {
            Some(c) => {
                let found = rc_value(c.as_str(), tool);
                assert(rest[0] == Some(c@));
                assert(all[i as int] == Some(c@));
                if found.is_some() {
                    return found;
                }
            },
            None => {},
        }
        i = i + 1;
    }
    None
}

/// Where a resolved version came from.
#[derive(Debug, Clone, Copy, PartialEq, Eq, Structural)]
pub enum BindingScope {
    /// The `.enman-version` marker of the working directory.
    Directory,
    /// The nearest `.enmanrc` project file at or above the working directory.
    Project,
    /// The global binding of the tool.
    Global,
}

/// No version can be resolved, or a binding is unusable.
#[derive(Debug, Clone, Copy, PartialEq, Eq, Structural)]
pub enum ConfigurationError {
    /// Neither a marker, a project file nor a global binding names a version.
    NoBinding,
    /// A binding file exists but names no version.
    EmptyBinding(BindingScope),
    /// The version is the tool's active global binding.
    ActiveGlobalBinding,
}

/// The version that applies to an invocation, and where it came from.
#[derive(Debug, Clone, PartialEq, Eq)]
pub struct Resolution {
    pub version: String,
    pub scope: BindingScope,
    /// The binding named another tool (`other@version`); its version is used.
    pub tool_mismatch: bool,
}

/// The resolver's answer: the directory marker first, then the project
/// file, then the global binding; with none of them, an error.
pub open spec fn spec_resolve(
    tool: Seq<char>,
    marker: Option<Seq<char>>,
    project: Option<Seq<char>>,
    global: Option<Seq<char>>,
) -> Result<(Seq<char>, BindingScope, bool), ConfigurationError> {
    match marker {
        Some(m) => match spec_binding(m, tool) {
            Some((v, mismatch)) => Ok((v, BindingScope::Directory, mismatch)),
            None => Err(ConfigurationError::EmptyBinding(BindingScope::Directory)),
        },
        None => match project {
            Some(p) => Ok((p, BindingScope::Project, false)),
            None => match global {
                Some(g) => match spec_binding(g, tool) {
                    Some((v, mismatch)) => Ok((v, BindingScope::Global, mismatch)),
                    None => Err(ConfigurationError::EmptyBinding(BindingScope::Global)),
                },
                None => Err(ConfigurationError::NoBinding),
            },
        },
    }
}

pub open spec fn opt_view(o: Option<&str>) -> Option<Seq<char>> {
    match o {
        Some(s) => Some(s@),
        None => None,
    }
}

pub open spec fn opt_string_view(o: Option<String>) -> Option<Seq<char>> {
    match o {
        Some(s) => Some(s@),
        None => None,
    }
}

/// Resolves the version of `tool` for an invocation. `marker` is the content
/// of the working directory's marker file, `project` the version found in
/// the nearest project file, `global` the content of the tool's global
/// binding file; each is `None` where there is no such file.
pub fn resolve_version(tool: &str, marker: Option<&str>, project: Option<String>, global: Option<&str>) -> (r: Result<Resolution, ConfigurationError>)
    ensures
        r matches Ok(res) ==> spec_resolve(tool@, opt_view(marker), opt_string_view(project), opt_view(global))
            == Ok::<(Seq<char>, BindingScope, bool), ConfigurationError>((res.version@, res.scope, res.tool_mismatch)),
        r matches Err(e) ==> spec_resolve(tool@, opt_view(marker), opt_string_view(project), opt_view(global))
            == Err::<(Seq<char>, BindingScope, bool), ConfigurationError>(e),
{
    match marker {
        Some(m) => match parse_binding(m, tool) {
            Some(b) => Ok(Resolution { version: b.version, scope: BindingScope::Directory, tool_mismatch: b.tool_mismatch }),
            None => Err(ConfigurationError::EmptyBinding(BindingScope::Directory)),
        },
        None => match project {
            Some(p) => Ok(Resolution { version: p, scope: BindingScope::Project, tool_mismatch: false }),
            None => match global {
                Some(g) => match parse_binding(g, tool) {
                    Some(b) => Ok(Resolution { version: b.version, scope: BindingScope::Global, tool_mismatch: b.tool_mismatch }),
                    None => Err(ConfigurationError::EmptyBinding(BindingScope::Global)),
                },
                None => Err(ConfigurationError::NoBinding),
            },
        },
    }
}

/// A per-directory marker that names a version decides the resolution,
/// whatever a project file or the global binding say.
pub proof fn lemma_directory_marker_wins(
    tool: Seq<char>,
    marker: Seq<char>,
    project: Option<Seq<char>>,
    global: Option<Seq<char>>,
)
    requires
        spec_binding(marker, tool) is Some,
    ensures
        spec_resolve(tool, Some(marker), project, global) matches Ok((v, scope, _))
            && v == spec_binding(marker, tool).unwrap().0 && scope == BindingScope::Directory,
{
}

/// Without a directory marker, a project file's version decides the
/// resolution, whatever the global binding says.
pub proof fn lemma_project_before_global(tool: Seq<char>, project: Seq<char>, global: Option<Seq<char>>)
    ensures
        spec_resolve(tool, None, Some(project), global) matches Ok((v, scope, mismatch))
            && v == project && scope == BindingScope::Project && !mismatch,
{
}

} // verus!
