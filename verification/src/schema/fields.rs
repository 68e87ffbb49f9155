//! The settings of the Datadog Agent's configuration schema: their paths, value types,
//! environment variables and defaults.
//!
//! A schema document is read as a [`JsonValue`]: YAML mappings are objects keyed by their string
//! keys, and YAML numbers keep their text.

use vstd::prelude::*;

use crate::json::{member, JsonValue};
use crate::json::find_member;
use crate::remote_config::product::{
    chars_le, config_id_le, lemma_chars_le_total, lemma_chars_le_transitive, ConfigId,
};
use crate::text::{owned, push_char, push_str};

verus! {

/// The value type of a schema setting.
#[derive(Clone, Copy, Debug, PartialEq, Eq, Structural)]
pub enum FieldType {
    /// A string.
    String,
    /// A boolean.
    Bool,
    /// An integer.
    Integer,
    /// A number.
    Float,
    /// A list of strings.
    StringList,
    /// Anything else.
    Unknown,
}

/// A schema setting.
#[derive(Debug)]
pub struct FieldInfo {
    /// Its value type.
    pub value_type: FieldType,
    /// The environment variables that set it.
    pub env_vars: Vec<String>,
    /// Its default, as JSON text.
    pub default: Option<String>,
}

/// The registry's name of a value type; an unknown type is registered as a string.
pub open spec fn rust_type_name(ft: FieldType) -> Seq<char> {
    match ft {
        FieldType::String | FieldType::Unknown => "ValueType::String"@,
        FieldType::Bool => "ValueType::Bool"@,
        FieldType::Integer => "ValueType::Integer"@,
        FieldType::Float => "ValueType::Float"@,
        FieldType::StringList => "ValueType::StringList"@,
    }
}

/// Returns the registry's name of a value type.
pub fn field_type_as_rust(ft: &FieldType) -> (r: &'static str)
    ensures
        r@ == rust_type_name(*ft),
{
    match ft {
        FieldType::String | FieldType::Unknown => "ValueType::String",
        FieldType::Bool => "ValueType::Bool",
        FieldType::Integer => "ValueType::Integer",
        FieldType::Float => "ValueType::Float",
        FieldType::StringList => "ValueType::StringList",
    }
}

/// Returns whether a value type is unknown.
pub fn is_unknown(ft: &FieldType) -> (r: bool)
    ensures
        r == (*ft == FieldType::Unknown),
{
    match ft {
        FieldType::Unknown => true,
        _ => false,
    }
}

/// A character as it is written inside a Rust string literal: backslashes and double quotes are
/// escaped with a backslash.
pub open spec fn escaped_char(c: char) -> Seq<char> {
    if c == '\\' {
        seq!['\\', '\\']
    } else if c == '"' {
        seq!['\\', '"']
    } else {
        seq![c]
    }
}

/// A text as it is written inside a Rust string literal.
pub open spec fn escaped(s: Seq<char>) -> Seq<char>
    decreases s.len(),
{
    if s.len() == 0 {
        Seq::empty()
    } else {
        escaped(s.drop_last()) + escaped_char(s.last())
    }
}

/// Returns `s` as it is written inside a Rust string literal.
pub fn escape_str(s: &str) -> (r: String)
    ensures
        r@ == escaped(s@),
{
    let chars = crate::text::chars_of(s);
    proof {
        reveal_strlit("");
    }
    let mut r = owned("");
    let mut i: usize = 0;
    assert(s@.subrange(0, 0) =~= Seq::<char>::empty());
    while i < chars.len()
        invariant
            i <= chars.len(),
            chars@ == s@,
            r@ == escaped(s@.subrange(0, i as int)),
        decreases chars.len() - i,
    {
        let c = chars[i];
        if c == '\\' {
            push_char(&mut r, '\\');
            push_char(&mut r, '\\');
        } else if c == '"' {
            push_char(&mut r, '\\');
            push_char(&mut r, '"');
        } else {
            push_char(&mut r, c);
        }
        proof {
            let next = s@.subrange(0, i + 1);
            assert(next.drop_last() =~= s@.subrange(0, i as int));
            assert(next.last() == c);
            assert(r@ =~= escaped(next));
        }
        i = i + 1;
    }
    assert(s@.subrange(0, i as int) =~= s@);
    r
}

/// The string at `key` of an object.
pub open spec fn str_member(v: JsonValue, key: Seq<char>) -> Option<Seq<char>> {
    match v {
        JsonValue::Object(fields) => match member(fields@, key) {
            Some(JsonValue::String(s)) => Some(s@),
            _ => None,
        },
        _ => None,
    }
}

/// The value type a setting declares: by its `type`, and for an array by its items' `type`.
pub open spec fn value_type_of(v: JsonValue) -> FieldType {
    let t = str_member(v, "type"@);
    if t == Some("string"@) {
        FieldType::String
    } else if t == Some("boolean"@) {
        FieldType::Bool
    } else if t == Some("integer"@) {
        FieldType::Integer
    } else if t == Some("number"@) {
        FieldType::Float
    } else if t == Some("array"@) {
        let items = match v {
            JsonValue::Object(fields) => member(fields@, "items"@),
            _ => None,
        };
        match items {
            Some(i) => if str_member(i, "type"@) == Some("string"@) {
                FieldType::StringList
            } else {
                FieldType::Unknown
            },
            None => FieldType::Unknown,
        }
    } else {
        FieldType::Unknown
    }
}

/// Returns the string at `key` of an object.
pub fn get_str<'a>(v: &'a JsonValue, key: &str) -> (r: Option<&'a str>)
    ensures
        r matches Some(s) ==> str_member(*v, key@) == Some(s@),
        r is None ==> str_member(*v, key@) is None,
{
    match v {
        JsonValue::Object(fields) => match find_member(fields, key) {
            Some(JsonValue::String(s)) => Some(s.as_str()),
            _ => None,
        },
        _ => None,
    }
}

/// Returns the value type a setting declares.
pub fn parse_value_type(v: &JsonValue) -> (r: FieldType)
    ensures
        r == value_type_of(*v),
{
    proof {
        reveal_strlit("string");
        reveal_strlit("boolean");
        reveal_strlit("integer");
        reveal_strlit("number");
        reveal_strlit("array");
    }
    let t = get_str(v, "type");
    match t {
        Some(t) => {
            if crate::text::str_eq(t, "string") {
                FieldType::String
            } else if crate::text::str_eq(t, "boolean") {
                FieldType::Bool
            } else if crate::text::str_eq(t, "integer") {
                FieldType::Integer
            } else if crate::text::str_eq(t, "number") {
                FieldType::Float
            } else if crate::text::str_eq(t, "array") {
                let items = match v {
                    JsonValue::Object(fields) => find_member(fields, "items"),
                    _ => None,
                };
                match items {
                    Some(i) => {
                        match get_str(i, "type") {
                            Some(it) => if crate::text::str_eq(it, "string") {
                                FieldType::StringList
                            } else {
                                FieldType::Unknown
                            },
                            None => FieldType::Unknown,
                        }
                    },
                    None => FieldType::Unknown,
                }
            } else {
                FieldType::Unknown
            }
        },
        None => FieldType::Unknown,
    }
}

/// The JSON text of a schema default: `null` and non-empty mappings have none, nor does an array
/// with an element that has none; an empty mapping is `{}`, and strings are quoted and escaped.
pub open spec fn json_text(v: JsonValue) -> Option<Seq<char>>
    decreases v, 0nat,
{
    match v {
        JsonValue::Null => None,
        JsonValue::Bool(b) => Some(if b { "true"@ } else { "false"@ }),
        JsonValue::Number(n) => Some(n@),
        JsonValue::String(s) => Some("\""@ + escaped(s@) + "\""@),
        JsonValue::Array(items) => match joined_texts(items@, items@.len()) {
            Some(t) => Some("["@ + t + "]"@),
            None => None,
        },
        JsonValue::Object(fields) => if fields@.len() == 0 {
            Some("{}"@)
        } else {
            None
        },
    }
}

/// The texts of the first `n` values, joined by commas; none when one of them has none.
pub open spec fn joined_texts(items: Seq<JsonValue>, n: nat) -> Option<Seq<char>>
    decreases items, n,
{
    if n == 0 || n > items.len() {
        if n == 0 {
            Some(Seq::empty())
        } else {
            None
        }
    } else {
        match joined_texts(items, (n - 1) as nat) {
            Some(prefix) => match json_text(items[n - 1]) {
                Some(t) => Some(if n == 1 { t } else { prefix + ","@ + t }),
                None => None,
            },
            None => None,
        }
    }
}

proof fn lemma_joined_none_stays(items: Seq<JsonValue>, k: nat, m: nat)
    requires
        k <= m <= items.len(),
        joined_texts(items, k) is None,
    ensures
        joined_texts(items, m) is None,
    decreases m,
{
    if m > k {
        lemma_joined_none_stays(items, k, (m - 1) as nat);
    }
}

/// An optional string's text.
pub open spec fn text_of(s: Option<String>) -> Option<Seq<char>> {
    match s {
        Some(t) => Some(t@),
        None => None,
    }
}

/// Returns the JSON text of a schema default.
pub fn yaml_value_to_json_str(v: &JsonValue) -> (r: Option<String>)
    ensures
        text_of(r) == json_text(*v),
    decreases v,
{
    proof {
        reveal_strlit("true");
        reveal_strlit("false");
    }
    match v {
        JsonValue::Null => None,
        JsonValue::Bool(b) => Some(owned(if *b { "true" } else { "false" })),
        JsonValue::Number(n) => Some(n.clone()),
        JsonValue::String(text) => {
            let mut r = owned("\"");
            let e = escape_str(text.as_str());
            push_str(&mut r, e.as_str());
            push_str(&mut r, "\"");
            Some(r)
        },
        JsonValue::Array(items) => {
            proof {
                reveal_strlit("");
            }
            let mut out = owned("");
            let mut i: usize = 0;
            while i < items.len()
                invariant
                    i <= items.len(),
                    *v == JsonValue::Array(*items),
                    joined_texts(items@, i as nat) == Some(out@),
                decreases items.len() - i,
            {
                assert(decreases_to!(*v => items@[i as int]));
                match yaml_value_to_json_str(&items[i]) {
                    Some(t) => {
                        if i > 0 {
                            push_str(&mut out, ",");
                        }
                        push_str(&mut out, t.as_str());
                    },
                    None => {
                        proof {
                            lemma_joined_none_stays(items@, (i + 1) as nat, items@.len());
                        }
                        return None;
                    },
                }
                i = i + 1;
            }
            let mut r = owned("[");
            push_str(&mut r, out.as_str());
            push_str(&mut r, "]");
            Some(r)
        },
        JsonValue::Object(fields) => {
            if fields.len() == 0 {
                Some(owned("{}"))
            } else {
                None
            }
        },
    }
}

/// A setting as plain values: its dotted path, value type, environment variables and default.
pub type SettingView = (Seq<char>, FieldType, Seq<Seq<char>>, Option<Seq<char>>);

/// Path segments joined by dots.
pub open spec fn dotted(parts: Seq<Seq<char>>) -> Seq<char>
    decreases parts.len(),
{
    if parts.len() == 0 {
        Seq::empty()
    } else if parts.len() == 1 {
        parts[0]
    } else {
        dotted(parts.drop_last()) + "."@ + parts.last()
    }
}

/// The value at `key` of an object.
pub open spec fn field(v: JsonValue, key: Seq<char>) -> Option<JsonValue> {
    match v {
        JsonValue::Object(fields) => member(fields@, key),
        _ => None,
    }
}

/// Whether a list holds the string `s`.
pub open spec fn has_string(items: Seq<JsonValue>, s: Seq<char>) -> bool {
    exists|i: int| 0 <= i < items.len() && (#[trigger] items[i] matches JsonValue::String(t) && t@ == s)
}

/// The strings of a list, in order, other values skipped.
pub open spec fn strings_of(items: Seq<JsonValue>) -> Seq<Seq<char>>
    decreases items.len(),
{
    if items.len() == 0 {
        Seq::empty()
    } else {
        let rest = strings_of(items.drop_last());
        match items.last() {
            JsonValue::String(t) => rest.push(t@),
            _ => rest,
        }
    }
}

/// The setting a schema node declares under the path `parts`: its environment variables unless
/// it is tagged `no-env`, and its default's JSON text.
pub open spec fn setting_of(parts: Seq<Seq<char>>, v: JsonValue) -> SettingView {
    let no_env = match field(v, "tags"@) {
        Some(JsonValue::Array(tags)) => has_string(tags@, "no-env"@),
        _ => false,
    };
    let env_vars = if no_env {
        Seq::empty()
    } else {
        match field(v, "env_vars"@) {
            Some(JsonValue::Array(vars)) => strings_of(vars@),
            _ => Seq::empty(),
        }
    };
    let default = match field(v, "default"@) {
        Some(d) => json_text(d),
        None => None,
    };
    (dotted(parts), value_type_of(v), env_vars, default)
}

/// The settings declared below the members of a mapping, depth first, in order.
pub open spec fn entries_of(mapping: Seq<(String, JsonValue)>, path: Seq<Seq<char>>) -> Seq<SettingView>
    decreases mapping, 1nat,
{
    if mapping.len() == 0 {
        Seq::empty()
    } else {
        entries_of(mapping.drop_last(), path) + entry_of(mapping.last(), path)
    }
}

/// The settings declared by one member of a mapping: the member itself when its `node_type` is
/// `setting`, and otherwise those below its `properties` mapping, if it has one.
pub open spec fn entry_of(m: (String, JsonValue), path: Seq<Seq<char>>) -> Seq<SettingView>
    decreases m, 0nat,
{
    let parts = path.push(m.0@);
    if str_member(m.1, "node_type"@) == Some("setting"@) {
        seq![setting_of(parts, m.1)]
    } else {
        match m.1 {
            JsonValue::Object(fields) => match member(fields@, "properties"@) {
                Some(JsonValue::Object(props)) => {
                    proof {
                        let k = lemma_member_index(fields@, "properties"@);
                        assert(decreases_to!(m => m.1));
                        assert(decreases_to!(m.1 => fields));
                        assert(decreases_to!(fields => fields@));
                        assert(decreases_to!(fields@ => fields@[k]));
                        assert(decreases_to!(fields@[k] => fields@[k].1));
                        assert(decreases_to!(fields@[k].1 => props));
                        assert(decreases_to!(props => props@));
                    }
                    entries_of(props@, parts)
                },
                _ => Seq::empty(),
            },
            _ => Seq::empty(),
        }
    }
}

/// A member found by key is one of the mapping's members.
pub proof fn lemma_member_index(fields: Seq<(String, JsonValue)>, key: Seq<char>) -> (k: int)
    requires
        member(fields, key) is Some,
    ensures
        0 <= k < fields.len(),
        member(fields, key) == Some(fields[k].1),
    decreases fields.len(),
{
    if fields[0].0@ == key {
        0
    } else {
        let k = lemma_member_index(fields.drop_first(), key);
        k + 1
    }
}

/// A setting as plain values.
pub open spec fn setting_view(e: (String, FieldInfo)) -> SettingView {
    (e.0@, e.1.value_type, e.1.env_vars@.map_values(|v: String| v@), text_of(e.1.default))
}

/// Settings as plain values.
pub open spec fn settings_view(es: Seq<(String, FieldInfo)>) -> Seq<SettingView> {
    es.map_values(|e: (String, FieldInfo)| setting_view(e))
}

/// The texts of a path's segments.
pub open spec fn parts_view(parts: Seq<String>) -> Seq<Seq<char>> {
    parts.map_values(|p: String| p@)
}

/// Returns the path segments joined by dots.
pub fn join_dotted(parts: &Vec<String>) -> (r: String)
    ensures
        r@ == dotted(parts_view(parts@)),
{
    proof {
        reveal_strlit("");
    }
    let mut r = owned("");
    let mut i: usize = 0;
    while i < parts.len()
        invariant
            i <= parts.len(),
            r@ == dotted(parts_view(parts@).take(i as int)),
        decreases parts.len() - i,
    {
        if i > 0 {
            push_str(&mut r, ".");
        }
        push_str(&mut r, parts[i].as_str());
        proof {
            let next = parts_view(parts@).take(i + 1);
            assert(next.drop_last() =~= parts_view(parts@).take(i as int));
            if i == 0 {
                assert(next.len() == 1);
                assert(r@ =~= next[0]);
            }
        }
        i = i + 1;
    }
    assert(parts_view(parts@).take(i as int) =~= parts_view(parts@));
    r
}

fn has_no_env_tag(v: &JsonValue) -> (r: bool)
    ensures
        r == (match field(*v, "tags"@) {
            Some(JsonValue::Array(tags)) => has_string(tags@, "no-env"@),
            _ => false,
        }),
{
    let tags = match v {
        JsonValue::Object(fields) => find_member(fields, "tags"),
        _ => None,
    };
    match tags {
        Some(JsonValue::Array(items)) => {
            let mut i: usize = 0;
            while i < items.len()
                invariant
                    i <= items.len(),
                    field(*v, "tags"@) == Some(JsonValue::Array(*items)),
                    forall|k: int| 0 <= k < i ==> !(#[trigger] items@[k] matches JsonValue::String(t) && t@ == "no-env"@),
                decreases items.len() - i,
            {
                match &items[i] {
                    JsonValue::String(t) => {
                        if crate::text::str_eq(t.as_str(), "no-env") {
                            assert(items@[i as int] matches JsonValue::String(t) && t@ == "no-env"@);
                            assert(has_string(items@, "no-env"@));
                            return true;
                        }
                    },
                    _ => {},
                }
                i = i + 1;
            }
            false
        },
        _ => false,
    }
}

fn strings_in(items: &Vec<JsonValue>) -> (r: Vec<String>)
    ensures
        r@.map_values(|v: String| v@) == strings_of(items@),
{
    let mut r: Vec<String> = Vec::new();
    let mut i: usize = 0;
    while i < items.len()
        invariant
            i <= items.len(),
            r@.map_values(|v: String| v@) == strings_of(items@.take(i as int)),
        decreases items.len() - i,
    {
        proof {
            assert(items@.take(i + 1).drop_last() =~= items@.take(i as int));
            assert(items@.take(i + 1).last() == items@[i as int]);
        }
        match &items[i] {
            JsonValue::String(t) => {
                r.push(t.clone());
                assert(r@.map_values(|v: String| v@) =~= strings_of(items@.take(i as int)).push(t@));
            },
            _ => {},
        }
        i = i + 1;
    }
    assert(items@.take(i as int) =~= items@);
    r
}

/// Returns the setting a schema node declares under the path `parts`.
pub fn parse_setting(parts: &Vec<String>, v: &JsonValue) -> (r: (String, FieldInfo))
    ensures
        setting_view(r) == setting_of(parts_view(parts@), *v),
{
    let yaml_path = join_dotted(parts);
    let env_vars = if has_no_env_tag(v) {
        let e: Vec<String> = Vec::new();
        assert(e@.map_values(|v: String| v@) =~= Seq::<Seq<char>>::empty());
        e
    } else {
        let vars = match v {
            JsonValue::Object(fields) => find_member(fields, "env_vars"),
            _ => None,
        };
        match vars {
            Some(JsonValue::Array(items)) => strings_in(items),
            _ => {
                let e: Vec<String> = Vec::new();
                assert(e@.map_values(|v: String| v@) =~= Seq::<Seq<char>>::empty());
                e
            },
        }
    };
    let value_type = parse_value_type(v);
    let default_value = match v {
        JsonValue::Object(fields) => find_member(fields, "default"),
        _ => None,
    };
    let default = match default_value {
        Some(d) => yaml_value_to_json_str(d),
        None => None,
    };
    (yaml_path, FieldInfo { value_type, env_vars, default })
}

/// Appends the settings declared below the members of `mapping`, under the path `path`, to
/// `out`, depth first and in order.
pub fn collect_entries(mapping: &Vec<(String, JsonValue)>, path: &Vec<String>, out: &mut Vec<(String, FieldInfo)>)
    ensures
        settings_view(final(out)@) == settings_view(old(out)@) + entries_of(mapping@, parts_view(path@)),
    decreases mapping@,
{
    let ghost start = out@;
    let mut i: usize = 0;
    assert(mapping@.take(0) =~= Seq::<(String, JsonValue)>::empty());
    assert(settings_view(out@) =~= settings_view(start) + entries_of(mapping@.take(0), parts_view(path@)));
    while i < mapping.len()
        invariant
            i <= mapping.len(),
            settings_view(out@) == settings_view(start) + entries_of(mapping@.take(i as int), parts_view(path@)),
        decreases mapping.len() - i,
    {
        let key = &mapping[i].0;
        let value = &mapping[i].1;
        let mut parts = path.clone();
        parts.push(key.clone());
        proof {
            assert(parts_view(parts@) =~= parts_view(path@).push(key@));
            let next = mapping@.take(i + 1);
            assert(next.drop_last() =~= mapping@.take(i as int));
            assert(next.last() == mapping@[i as int]);
        }
        let ghost before = out@;
        let node_type = get_str(value, "node_type");
        let is_setting = match node_type {
            Some(t) => crate::text::str_eq(t, "setting"),
            None => false,
        };
        if is_setting {
            let entry = parse_setting(&parts, value);
            out.push(entry);
            proof {
                assert(settings_view(out@) =~= settings_view(before).push(setting_view(entry)));
            }
        } else {
            match value {
                JsonValue::Object(fields) => {
                    match find_member(fields, "properties") {
                        Some(JsonValue::Object(inner)) => {
                            proof {
                                let k = lemma_member_index(fields@, "properties"@);
                                assert(decreases_to!(mapping@ => mapping@[i as int]));
                                assert(decreases_to!(mapping@[i as int] => mapping@[i as int].1));
                                assert(decreases_to!(mapping@[i as int].1 => *fields));
                                assert(decreases_to!(*fields => fields@));
                                assert(decreases_to!(fields@ => fields@[k]));
                                assert(decreases_to!(fields@[k] => fields@[k].1));
                                assert(decreases_to!(fields@[k].1 => *inner));
                                assert(decreases_to!(*inner => inner@));
                            }
                            collect_entries(inner, &parts, out);
                        },
                        _ => {},
                    }
                },
                _ => {},
            }
        }
        proof {
            assert(settings_view(out@) =~= settings_view(before) + entry_of(mapping@[i as int], parts_view(path@)));
            assert(settings_view(out@) =~= settings_view(start) + entries_of(mapping@.take(i + 1), parts_view(path@)));
        }
        i = i + 1;
    }
    assert(mapping@.take(i as int) =~= mapping@);
}

/// Whether settings are in ascending path order.
pub open spec fn sorted_by_path(s: Seq<(String, FieldInfo)>) -> bool {
    forall|i: int, j: int| 0 <= i < j < s.len() ==> chars_le(#[trigger] s[i].0@, #[trigger] s[j].0@)
}

proof fn lemma_insert_keeps_sorted(s: Seq<(String, FieldInfo)>, p: int, x: (String, FieldInfo))
    requires
        sorted_by_path(s),
        0 <= p <= s.len(),
        forall|i: int| 0 <= i < p ==> chars_le(#[trigger] s[i].0@, x.0@),
        p < s.len() ==> !chars_le(s[p].0@, x.0@),
    ensures
        sorted_by_path(s.insert(p, x)),
{
    let t = s.insert(p, x);
    if p < s.len() {
        lemma_chars_le_total(s[p].0@, x.0@);
    }
    assert forall|i: int, j: int| 0 <= i < j < t.len() implies chars_le(
        #[trigger] t[i].0@,
        #[trigger] t[j].0@,
    ) by {
        if j < p {
            assert(t[i] == s[i] && t[j] == s[j]);
        } else if j == p {
            assert(t[i] == s[i]);
        } else if i == p {
            assert(t[j] == s[j - 1]);
            if j - 1 > p {
                assert(chars_le(s[p].0@, s[j - 1].0@));
                lemma_chars_le_transitive(x.0@, s[p].0@, s[j - 1].0@);
            }
        } else if i < p {
            assert(t[i] == s[i] && t[j] == s[j - 1]);
        } else {
            assert(t[i] == s[i - 1] && t[j] == s[j - 1]);
        }
    }
}

fn path_le(a: &String, b: &String) -> (r: bool)
    ensures
        r == chars_le(a@, b@),
{
    config_id_le(&ConfigId::new(a.as_str()), &ConfigId::new(b.as_str()))
}

/// Orders settings by ascending path, keeping every setting; settings with equal paths keep their
/// relative order.
pub fn sort_by_path(settings: Vec<(String, FieldInfo)>) -> (r: Vec<(String, FieldInfo)>)
    ensures
        sorted_by_path(r@),
        r@.to_multiset() == settings@.to_multiset(),
{
    broadcast use vstd::multiset::group_multiset_axioms;

    let mut rest = settings;
    let mut out: Vec<(String, FieldInfo)> = Vec::new();
    proof {
        vstd::seq_lib::to_multiset_len(out@);
        vstd::multiset::lemma_multiset_empty_len(out@.to_multiset());
        assert(out@.to_multiset().add(rest@.to_multiset()) =~= settings@.to_multiset());
    }
    while rest.len() > 0
        invariant
            sorted_by_path(out@),
            out@.to_multiset().add(rest@.to_multiset()) == settings@.to_multiset(),
        decreases rest.len(),
    {
        let ghost before_rest = rest@;
        let ghost before_out = out@;
        let item = rest.remove(0);
        let mut p: usize = 0;
        while p < out.len() && path_le(&out[p].0, &item.0)
            invariant
                p <= out.len(),
                out@ == before_out,
                forall|i: int| 0 <= i < p ==> chars_le(#[trigger] out@[i].0@, item.0@),
            decreases out.len() - p,
        {
            p = p + 1;
        }
        proof {
            lemma_insert_keeps_sorted(out@, p as int, item);
        }
        out.insert(p, item);
        proof {
            vstd::seq_lib::to_multiset_remove(before_rest, 0);
            vstd::seq_lib::to_multiset_insert(before_out, p as int, item);
            vstd::seq_lib::to_multiset_contains(before_rest, item);
            assert(before_rest.contains(item)) by {
                assert(before_rest[0] == item);
            }
            assert(out@.to_multiset().add(rest@.to_multiset()) =~= settings@.to_multiset());
        }
    }
    proof {
        vstd::seq_lib::to_multiset_len(rest@);
        vstd::multiset::lemma_multiset_empty_len(rest@.to_multiset());
        assert(out@.to_multiset() =~= out@.to_multiset().add(rest@.to_multiset()));
    }
    out
}

/// Reads the settings of a schema document: those declared below its root `properties`
/// mapping, in ascending path order; `None` when the root has no `properties` mapping.
pub fn schema_settings(doc: &JsonValue) -> (r: Option<Vec<(String, FieldInfo)>>)
    ensures
        r is None <==> !(field(*doc, "properties"@) matches Some(JsonValue::Object(_))),
        r matches Some(settings) ==> {
            &&& sorted_by_path(settings@)
            &&& exists|found: Seq<(String, FieldInfo)>|
                #[trigger] found.to_multiset() == settings@.to_multiset()
                    && settings_view(found) == entries_of(
                    match field(*doc, "properties"@) {
                        Some(JsonValue::Object(props)) => props@,
                        _ => Seq::empty(),
                    },
                    Seq::empty(),
                )
        },
{
    match doc {
        JsonValue::Object(fields) => {
            match find_member(fields, "properties") {
                Some(JsonValue::Object(props)) => {
                    let mut found: Vec<(String, FieldInfo)> = Vec::new();
                    let root: Vec<String> = Vec::new();
                    proof {
                        assert(parts_view(root@) =~= Seq::<Seq<char>>::empty());
                        assert(settings_view(found@) =~= Seq::<SettingView>::empty());
                    }
                    collect_entries(props, &root, &mut found);
                    let ghost found_view = found@;
                    assert(settings_view(found_view) =~= entries_of(props@, Seq::empty()));
                    let sorted = sort_by_path(found);
                    Some(sorted)
                },
                _ => None,
            }
        },
        _ => None,
    }
}

} // verus!
