//! The configuration registry's sources: the schema entries, the annotations of each subsystem's
//! keys, the unsupported keys, the module that gathers them, and the classifier's data.

use vstd::prelude::*;

use crate::config_system::validate::{Pipeline, PipelineAffinity, Severity};
use crate::remote_config::product::{chars_le, config_id_le, lemma_chars_le_antisymmetric, lemma_chars_le_total, lemma_chars_le_transitive, ConfigId};
use crate::schema::fields::{escape_str, escaped, field_type_as_rust, is_unknown, rust_type_name, sort_by_path, sorted_by_path, text_of, FieldInfo, FieldType};
use crate::schema::overlay::{Investigate, OverlaySupportLevel, OverlayValueType, SchemaOverlay, Supported, Unsupported};
use crate::text::{chars_of, owned, push_char, push_str, str_eq, to_uppercase, unicode_uppercase, views};

verus! {

/// A path with its dots and hyphens replaced by underscores.
pub open spec fn underscored(p: Seq<char>) -> Seq<char> {
    p.map_values(|c: char| if c == '.' || c == '-' { '_' } else { c })
}

/// The constant name of a key: its path with dots and hyphens replaced by underscores, in
/// uppercase.
pub open spec fn const_name(p: Seq<char>) -> Seq<char> {
    unicode_uppercase(underscored(p))
}

/// Returns the constant name of a key.
pub fn yaml_path_to_const(yaml_path: &str) -> (r: String)
    ensures
        r@ == const_name(yaml_path@),
{
    let chars = chars_of(yaml_path);
    let mut u = String::new();
    let mut i: usize = 0;
    while i < chars.len()
        invariant
            i <= chars.len(),
            chars@ == yaml_path@,
            u@ == underscored(yaml_path@.take(i as int)),
        decreases chars.len() - i,
    {
        let c = chars[i];
        if c == '.' || c == '-' {
            push_char(&mut u, '_');
        } else {
            push_char(&mut u, c);
        }
        assert(underscored(yaml_path@.take(i + 1)) =~= underscored(yaml_path@.take(i as int)).push(
            if c == '.' || c == '-' {
                '_'
            } else {
                c
            },
        ));
        i = i + 1;
    }
    assert(yaml_path@.take(i as int) =~= yaml_path@);
    to_uppercase(u.as_str())
}

/// Texts joined by a separator.
pub open spec fn joined(items: Seq<Seq<char>>, sep: Seq<char>) -> Seq<char>
    decreases items.len(),
{
    if items.len() == 0 {
        Seq::empty()
    } else if items.len() == 1 {
        items[0]
    } else {
        joined(items.drop_last(), sep) + sep + items.last()
    }
}

/// Joins texts with a separator.
pub fn join(items: &Vec<String>, sep: &str) -> (r: String)
    ensures
        r@ == joined(views(items@), sep@),
{
    let mut r = String::new();
    let mut i: usize = 0;
    while i < items.len()
        invariant
            i <= items.len(),
            r@ == joined(views(items@.take(i as int)), sep@),
        decreases items.len() - i,
    {
        if i > 0 {
            push_str(&mut r, sep);
        }
        push_str(&mut r, items[i].as_str());
        assert(views(items@.take(i + 1)).drop_last() =~= views(items@.take(i as int)));
        i = i + 1;
    }
    assert(items@.take(i as int) =~= items@);
    r
}

/// A text in double quotes.
pub open spec fn quoted(s: Seq<char>) -> Seq<char> {
    "\""@ + s + "\""@
}

/// Texts in double quotes.
pub open spec fn all_quoted(items: Seq<Seq<char>>) -> Seq<Seq<char>> {
    items.map_values(|s: Seq<char>| quoted(s))
}

/// Texts escaped and in double quotes.
pub open spec fn all_quoted_escaped(items: Seq<Seq<char>>) -> Seq<Seq<char>> {
    items.map_values(|s: Seq<char>| quoted(escaped(s)))
}

/// Names of smoke test constants, each as a path under `structs`.
pub open spec fn all_structs(items: Seq<Seq<char>>) -> Seq<Seq<char>> {
    items.map_values(|s: Seq<char>| "structs::"@ + s)
}

/// A slice literal of the given items.
pub open spec fn slice_lit(items: Seq<Seq<char>>) -> Seq<char> {
    "&["@ + joined(items, ", "@) + "]"@
}

/// An optional string literal, escaped.
pub open spec fn opt_str_lit(o: Option<Seq<char>>) -> Seq<char> {
    match o {
        Some(s) => "Some(\""@ + escaped(s) + "\")"@,
        None => "None"@,
    }
}

fn quote(s: &str) -> (r: String)
    ensures
        r@ == quoted(s@),
{
    let mut r = owned("\"");
    push_str(&mut r, s);
    push_str(&mut r, "\"");
    r
}

fn quote_all(items: &Vec<String>, escape: bool) -> (r: Vec<String>)
    ensures
        views(r@) == if escape {
            all_quoted_escaped(views(items@))
        } else {
            all_quoted(views(items@))
        },
{
    let mut r: Vec<String> = Vec::new();
    let mut i: usize = 0;
    while i < items.len()
        invariant
            i <= items.len(),
            views(r@) == if escape {
                all_quoted_escaped(views(items@.take(i as int)))
            } else {
                all_quoted(views(items@.take(i as int)))
            },
        decreases items.len() - i,
    {
        let ghost before = r@;
        if escape {
            let e = escape_str(items[i].as_str());
            r.push(quote(e.as_str()));
        } else {
            r.push(quote(items[i].as_str()));
        }
        proof {
            assert(views(r@) =~= views(before).push(r@[i as int]@));
            assert(views(items@.take(i + 1)) =~= views(items@.take(i as int)).push(items@[i as int]@));
            if escape {
                assert(views(r@) =~= all_quoted_escaped(views(items@.take(i + 1))));
            } else {
                assert(views(r@) =~= all_quoted(views(items@.take(i + 1))));
            }
        }
        i = i + 1;
    }
    assert(items@.take(i as int) =~= items@);
    r
}

/// Returns the slice literal of the given items.
pub fn slice_literal(items: &Vec<String>) -> (r: String)
    ensures
        r@ == slice_lit(views(items@)),
{
    let mut r = owned("&[");
    let j = join(items, ", ");
    push_str(&mut r, j.as_str());
    push_str(&mut r, "]");
    r
}

/// Returns the slice literal of the given paths, each in double quotes.
pub fn alias_literal(paths: &Vec<String>) -> (r: String)
    ensures
        r@ == slice_lit(all_quoted(views(paths@))),
{
    let q = quote_all(paths, false);
    slice_literal(&q)
}

/// Returns an optional string literal, escaped.
pub fn opt_str_literal(o: &Option<String>) -> (r: String)
    ensures
        r@ == opt_str_lit(
            match o {
                Some(s) => Some(s@),
                None => None,
            },
        ),
{
    match o {
        Some(s) => {
            let mut r = owned("Some(\"");
            let e = escape_str(s.as_str());
            push_str(&mut r, e.as_str());
            push_str(&mut r, "\")");
            r
        },
        None => owned("None"),
    }
}

/// The registry's name of a pipeline.
pub open spec fn pipeline_name(p: Pipeline) -> Seq<char> {
    match p {
        Pipeline::DogStatsD => "Pipeline::DogStatsD"@,
        Pipeline::Checks => "Pipeline::Checks"@,
        Pipeline::Otlp => "Pipeline::Otlp"@,
        Pipeline::Traces => "Pipeline::Traces"@,
    }
}

/// The registry's expression of which pipelines a key affects.
pub open spec fn affinity_expr(pa: PipelineAffinity) -> Seq<char> {
    match pa {
        PipelineAffinity::CrossCutting => "PipelineAffinity::CrossCutting"@,
        PipelineAffinity::Pipelines(ps) => "PipelineAffinity::Pipelines("@ + slice_lit(
            ps@.map_values(|p: Pipeline| pipeline_name(p)),
        ) + ")"@,
    }
}

fn pipeline_str(p: &Pipeline) -> (r: &'static str)
    ensures
        r@ == pipeline_name(*p),
{
    match p {
        Pipeline::DogStatsD => "Pipeline::DogStatsD",
        Pipeline::Checks => "Pipeline::Checks",
        Pipeline::Otlp => "Pipeline::Otlp",
        Pipeline::Traces => "Pipeline::Traces",
    }
}

/// Returns the registry's expression of which pipelines a key affects.
pub fn overlay_pipeline_affinity_expr(pa: &PipelineAffinity) -> (r: String)
    ensures
        r@ == affinity_expr(*pa),
{
    match pa {
        PipelineAffinity::CrossCutting => owned("PipelineAffinity::CrossCutting"),
        PipelineAffinity::Pipelines(ps) => {
            let mut parts: Vec<String> = Vec::new();
            let mut i: usize = 0;
            while i < ps.len()
                invariant
                    i <= ps.len(),
                    views(parts@) == ps@.take(i as int).map_values(|p: Pipeline| pipeline_name(p)),
                decreases ps.len() - i,
            {
                let ghost before = parts@;
                parts.push(owned(pipeline_str(&ps[i])));
                proof {
                    assert(views(parts@) =~= views(before).push(pipeline_name(ps@[i as int])));
                    assert(ps@.take(i + 1).map_values(|p: Pipeline| pipeline_name(p)) =~= ps@.take(
                        i as int,
                    ).map_values(|p: Pipeline| pipeline_name(p)).push(pipeline_name(ps@[i as int])));
                }
                i = i + 1;
            }
            assert(ps@.take(i as int) =~= ps@);
            let mut r = owned("PipelineAffinity::Pipelines(");
            let s = slice_literal(&parts);
            push_str(&mut r, s.as_str());
            push_str(&mut r, ")");
            r
        },
    }
}

/// The registry's name of a support level.
pub open spec fn support_level_name(sl: OverlaySupportLevel) -> Seq<char> {
    match sl {
        OverlaySupportLevel::Full => "SupportLevel::Full"@,
        OverlaySupportLevel::Partial => "SupportLevel::Partial"@,
    }
}

/// Returns the registry's name of a support level.
pub fn overlay_support_level(sl: &OverlaySupportLevel) -> (r: &'static str)
    ensures
        r@ == support_level_name(*sl),
{
    match sl {
        OverlaySupportLevel::Full => "SupportLevel::Full",
        OverlaySupportLevel::Partial => "SupportLevel::Partial",
    }
}

/// The registry's name of a value type.
pub open spec fn value_type_name(vt: OverlayValueType) -> Seq<char> {
    match vt {
        OverlayValueType::Boolean => "ValueType::Bool"@,
        OverlayValueType::Integer => "ValueType::Integer"@,
        OverlayValueType::Float => "ValueType::Float"@,
        OverlayValueType::String => "ValueType::String"@,
        OverlayValueType::StringList => "ValueType::StringList"@,
    }
}

/// Returns the registry's name of a value type.
pub fn overlay_value_type(vt: &OverlayValueType) -> (r: &'static str)
    ensures
        r@ == value_type_name(*vt),
{
    match vt {
        OverlayValueType::Boolean => "ValueType::Bool",
        OverlayValueType::Integer => "ValueType::Integer",
        OverlayValueType::Float => "ValueType::Float",
        OverlayValueType::String => "ValueType::String",
        OverlayValueType::StringList => "ValueType::StringList",
    }
}

/// The registry's name of a severity.
pub open spec fn severity_name(s: Severity) -> Seq<char> {
    match s {
        Severity::Low => "Severity::Low"@,
        Severity::Medium => "Severity::Medium"@,
        Severity::High => "Severity::High"@,
    }
}

fn severity_str(s: &Severity) -> (r: &'static str)
    ensures
        r@ == severity_name(*s),
{
    match s {
        Severity::Low => "Severity::Low",
        Severity::Medium => "Severity::Medium",
        Severity::High => "Severity::High",
    }
}

/// A line that sets a field of a struct literal nested in a list: `name: value,`.
pub open spec fn field_line(name: Seq<char>, value: Seq<char>) -> Seq<char> {
    "        "@ + name + ": "@ + value + ",\n"@
}

/// The lines that set the given fields, in order.
pub open spec fn field_lines(names: Seq<Seq<char>>, values: Seq<Seq<char>>) -> Seq<char>
    decreases names.len(),
{
    if names.len() == 0 {
        Seq::empty()
    } else {
        field_lines(names.drop_last(), values.take(names.len() - 1)) + field_line(
            names.last(),
            values[names.len() - 1],
        )
    }
}

pub(crate) fn push_fields(out: &mut String, names: &Vec<&'static str>, values: &Vec<String>)
    requires
        names.len() == values.len(),
    ensures
        final(out)@ == old(out)@ + field_lines(names@.map_values(|s: &str| s@), views(values@)),
{
    let ghost ns = names@.map_values(|s: &str| s@);
    let ghost vs = views(values@);
    let mut i: usize = 0;
    assert(ns.take(0) =~= Seq::<Seq<char>>::empty());
    assert(old(out)@ + field_lines(ns.take(0), vs.take(0)) =~= old(out)@);
    while i < names.len()
        invariant
            i <= names.len(),
            names.len() == values.len(),
            ns == names@.map_values(|s: &str| s@),
            vs == views(values@),
            out@ == old(out)@ + field_lines(ns.take(i as int), vs.take(i as int)),
        decreases names.len() - i,
    {
        push_str(out, "        ");
        push_str(out, names[i]);
        push_str(out, ": ");
        push_str(out, values[i].as_str());
        push_str(out, ",\n");
        proof {
            let n2 = ns.take(i + 1);
            assert(n2.drop_last() =~= ns.take(i as int));
            assert(vs.take(i + 1).take(i as int) =~= vs.take(i as int));
            assert(n2.last() == names@[i as int]@);
            assert(vs.take(i + 1)[i as int] == values@[i as int]@);
        }
        i = i + 1;
    }
    assert(ns.take(i as int) =~= ns);
    assert(vs.take(i as int) =~= vs);
}

/// The fields of an annotation, in order.
pub open spec fn annotation_fields() -> Seq<Seq<char>> {
    seq![
        "schema"@,
        "support_level"@,
        "additional_yaml_paths"@,
        "env_var_override"@,
        "used_by"@,
        "value_type_override"@,
        "test_json"@,
        "pipeline_affinity"@,
    ]
}

fn annotation_field_names() -> (v: Vec<&'static str>)
    ensures
        v@.map_values(|s: &str| s@) == annotation_fields(),
{
    let v: Vec<&'static str> = vec![
        "schema",
        "support_level",
        "additional_yaml_paths",
        "env_var_override",
        "used_by",
        "value_type_override",
        "test_json",
        "pipeline_affinity",
    ];
    assert(v@.map_values(|s: &str| s@) =~= annotation_fields());
    v
}

/// An annotation of a key: its doc line, then its constant with the given field values.
pub open spec fn annotation(doc: Seq<char>, name: Seq<char>, values: Seq<Seq<char>>) -> Seq<char> {
    "    /// "@ + doc + "\n"@ + "    "@ + name + " = SalukiAnnotation {\n"@ + field_lines(
        annotation_fields(),
        values,
    ) + "    };\n"@
}

fn push_annotation(out: &mut String, doc: &str, name: &str, values: &Vec<String>)
    requires
        values.len() == 8,
    ensures
        final(out)@ == old(out)@ + annotation(doc@, name@, views(values@)),
{
    push_str(out, "    /// ");
    push_str(out, doc);
    push_str(out, "\n    ");
    push_str(out, name);
    push_str(out, " = SalukiAnnotation {\n");
    let names = annotation_field_names();
    push_fields(out, &names, values);
    push_str(out, "    };\n");
    proof {
        reveal_strlit("\n    ");
        reveal_strlit("\n");
        reveal_strlit("    ");
        assert("\n    "@ =~= "\n"@ + "    "@);
    }
}


/// Optional texts as plain values.
pub open spec fn opt_views(o: Option<Vec<String>>) -> Option<Seq<Seq<char>>> {
    match o {
        Some(v) => Some(views(v@)),
        None => None,
    }
}

/// The literal of an environment variable override: `None`, or the variables' slice, each in
/// double quotes and escaped where `escape` holds.
pub open spec fn env_override_lit(o: Option<Seq<Seq<char>>>, escape: bool) -> Seq<char> {
    match o {
        Some(vs) => "Some("@ + slice_lit(
            if escape {
                all_quoted_escaped(vs)
            } else {
                all_quoted(vs)
            },
        ) + ")"@,
        None => "None"@,
    }
}

fn env_override_literal(o: &Option<Vec<String>>, escape: bool) -> (r: String)
    ensures
        r@ == env_override_lit(opt_views(*o), escape),
{
    match o {
        Some(vs) => {
            let q = quote_all(vs, escape);
            let mut r = owned("Some(");
            let l = slice_literal(&q);
            push_str(&mut r, l.as_str());
            push_str(&mut r, ")");
            r
        },
        None => owned("None"),
    }
}

/// The literal of a value type override.
pub open spec fn value_type_override_lit(o: Option<OverlayValueType>) -> Seq<char> {
    match o {
        Some(vt) => "Some("@ + value_type_name(vt) + ")"@,
        None => "None"@,
    }
}

fn structs_literal(items: &Vec<String>) -> (r: String)
    ensures
        r@ == slice_lit(all_structs(views(items@))),
{
    let mut q: Vec<String> = Vec::new();
    let mut i: usize = 0;
    while i < items.len()
        invariant
            i <= items.len(),
            views(q@) == all_structs(views(items@.take(i as int))),
        decreases items.len() - i,
    {
        let ghost before = q@;
        let mut e = owned("structs::");
        push_str(&mut e, items[i].as_str());
        q.push(e);
        proof {
            assert(views(q@) =~= views(before).push(q@[i as int]@));
            assert(views(items@.take(i + 1)) =~= views(items@.take(i as int)).push(items@[i as int]@));
            assert(views(q@) =~= all_structs(views(items@.take(i + 1))));
        }
        i = i + 1;
    }
    assert(items@.take(i as int) =~= items@);
    slice_literal(&q)
}

/// The field values of a supported key's annotation.
pub open spec fn datadog_values(path: Seq<char>, e: Supported) -> Seq<Seq<char>> {
    seq![
        "&super::schema::"@ + const_name(path),
        support_level_name(e.support_level),
        slice_lit(all_quoted(views(e.additional_yaml_paths@))),
        env_override_lit(opt_views(e.env_var_override), true),
        slice_lit(all_structs(views(e.used_by@))),
        value_type_override_lit(e.value_type_override),
        opt_str_lit(text_of(e.test_json)),
        affinity_expr(e.pipelines),
    ]
}

/// The annotation of a supported key.
pub open spec fn datadog_annotation(path: Seq<char>, e: Supported) -> Seq<char> {
    annotation("`"@ + path + "`-"@ + e.description@, const_name(path), datadog_values(path, e))
}

/// Writes the annotation of a supported key.
pub fn emit_datadog_annotation(out: &mut String, yaml_path: &str, entry: &Supported)
    ensures
        final(out)@ == old(out)@ + datadog_annotation(yaml_path@, *entry),
{
    let name = yaml_path_to_const(yaml_path);
    let mut schema = owned("&super::schema::");
    push_str(&mut schema, name.as_str());
    let vt = match &entry.value_type_override {
        Some(vt) => {
            let mut r = owned("Some(");
            push_str(&mut r, overlay_value_type(vt));
            push_str(&mut r, ")");
            r
        },
        None => owned("None"),
    };
    let values: Vec<String> = vec![
        schema,
        owned(overlay_support_level(&entry.support_level)),
        alias_literal(&entry.additional_yaml_paths),
        env_override_literal(&entry.env_var_override, true),
        structs_literal(&entry.used_by),
        vt,
        opt_str_literal(&entry.test_json),
        overlay_pipeline_affinity_expr(&entry.pipelines),
    ];
    let mut doc = owned("`");
    push_str(&mut doc, yaml_path);
    push_str(&mut doc, "`-");
    push_str(&mut doc, entry.description.as_str());
    assert(views(values@) =~= datadog_values(yaml_path@, *entry));
    push_annotation(out, doc.as_str(), name.as_str(), &values);
}

/// A key that only ADP reads, with its schema entry and annotation.
#[derive(Debug)]
pub struct SalukiEntry {
    /// Its path.
    pub yaml_path: String,
    /// The registry's name of its value type.
    pub value_type: String,
    /// Its default, as JSON text.
    pub schema_default: Option<String>,
    /// The environment variables that set it.
    pub env_vars: Vec<String>,
    /// The environment variables that replace those, if any.
    pub env_var_override: Option<Vec<String>>,
    /// Other paths it is read from.
    pub additional_yaml_paths: Vec<String>,
    /// The smoke test constants of the components that read it.
    pub used_by: Vec<String>,
    /// A JSON value to test it with, if any.
    pub test_json: Option<String>,
    /// The registry's expression of the pipelines it affects.
    pub pipeline_affinity: String,
    /// The registry file its annotation goes to.
    pub filename: String,
}

/// An ADP-only key's entry as plain values.
#[verifier::ext_equal]
pub struct SalukiEntryView {
    /// Its path.
    pub yaml_path: Seq<char>,
    /// The registry's name of its value type.
    pub value_type: Seq<char>,
    /// Its default, as JSON text.
    pub schema_default: Option<Seq<char>>,
    /// The environment variables that set it.
    pub env_vars: Seq<Seq<char>>,
    /// The environment variables that replace those, if any.
    pub env_var_override: Option<Seq<Seq<char>>>,
    /// Other paths it is read from.
    pub additional_yaml_paths: Seq<Seq<char>>,
    /// The smoke test constants of the components that read it.
    pub used_by: Seq<Seq<char>>,
    /// A JSON value to test it with, if any.
    pub test_json: Option<Seq<char>>,
    /// The registry's expression of the pipelines it affects.
    pub pipeline_affinity: Seq<char>,
    /// The registry file its annotation goes to.
    pub filename: Seq<char>,
}

impl View for SalukiEntry {
    type V = SalukiEntryView;

    open spec fn view(&self) -> SalukiEntryView {
        SalukiEntryView {
            yaml_path: self.yaml_path@,
            value_type: self.value_type@,
            schema_default: text_of(self.schema_default),
            env_vars: views(self.env_vars@),
            env_var_override: opt_views(self.env_var_override),
            additional_yaml_paths: views(self.additional_yaml_paths@),
            used_by: views(self.used_by@),
            test_json: text_of(self.test_json),
            pipeline_affinity: self.pipeline_affinity@,
            filename: self.filename@,
        }
    }
}

/// An ADP-only key that no environment variable sets.
pub open spec fn adp_only(
    yaml_path: Seq<char>,
    value_type: Seq<char>,
    schema_default: Option<Seq<char>>,
    additional_yaml_paths: Seq<Seq<char>>,
    used_by: Seq<Seq<char>>,
    test_json: Option<Seq<char>>,
    pipeline_affinity: Seq<char>,
    filename: Seq<char>,
) -> SalukiEntryView {
    SalukiEntryView {
        yaml_path,
        value_type,
        schema_default,
        env_vars: seq![],
        env_var_override: None,
        additional_yaml_paths,
        used_by,
        test_json,
        pipeline_affinity,
        filename,
    }
}

/// The keys that only ADP reads, in order.
pub open spec fn saluki_table() -> Seq<SalukiEntryView> {
    seq![
        adp_only(
            "dogstatsd_allow_context_heap_allocs"@,
            "ValueType::Bool"@,
            Some("true"@),
            seq![],
            seq!["DOGSTATSD_CONFIGURATION"@],
            None,
            "PipelineAffinity::Pipelines(&[Pipeline::DogStatsD])"@,
            "dogstatsd.rs"@,
        ),
        adp_only(
            "dogstatsd_autoscale_udp_listeners"@,
            "ValueType::Bool"@,
            Some("false"@),
            seq![],
            seq!["DOGSTATSD_CONFIGURATION"@],
            None,
            "PipelineAffinity::Pipelines(&[Pipeline::DogStatsD])"@,
            "dogstatsd.rs"@,
        ),
        adp_only(
            "dogstatsd_buffer_count"@,
            "ValueType::Integer"@,
            None,
            seq![],
            seq!["DOGSTATSD_CONFIGURATION"@],
            None,
            "PipelineAffinity::Pipelines(&[Pipeline::DogStatsD])"@,
            "dogstatsd.rs"@,
        ),
        adp_only(
            "dogstatsd_cached_contexts_limit"@,
            "ValueType::Integer"@,
            None,
            seq![],
            seq!["DOGSTATSD_CONFIGURATION"@],
            None,
            "PipelineAffinity::Pipelines(&[Pipeline::DogStatsD])"@,
            "dogstatsd.rs"@,
        ),
        adp_only(
            "dogstatsd_cached_tagsets_limit"@,
            "ValueType::Integer"@,
            None,
            seq![],
            seq!["DOGSTATSD_CONFIGURATION"@],
            None,
            "PipelineAffinity::Pipelines(&[Pipeline::DogStatsD])"@,
            "dogstatsd.rs"@,
        ),
        adp_only(
            "dogstatsd_minimum_sample_rate"@,
            "ValueType::Float"@,
            None,
            seq![],
            seq!["DOGSTATSD_CONFIGURATION"@],
            None,
            "PipelineAffinity::Pipelines(&[Pipeline::DogStatsD])"@,
            "dogstatsd.rs"@,
        ),
        adp_only(
            "dogstatsd_permissive_decoding"@,
            "ValueType::Bool"@,
            Some("true"@),
            seq![],
            seq!["DOGSTATSD_CONFIGURATION"@],
            None,
            "PipelineAffinity::Pipelines(&[Pipeline::DogStatsD])"@,
            "dogstatsd.rs"@,
        ),
        adp_only(
            "dogstatsd_string_interner_size_bytes"@,
            "ValueType::Integer"@,
            None,
            seq![],
            seq!["DOGSTATSD_CONFIGURATION"@],
            None,
            "PipelineAffinity::Pipelines(&[Pipeline::DogStatsD])"@,
            "dogstatsd.rs"@,
        ),
        adp_only(
            "dogstatsd_tcp_port"@,
            "ValueType::Integer"@,
            None,
            seq![],
            seq!["DOGSTATSD_CONFIGURATION"@],
            None,
            "PipelineAffinity::Pipelines(&[Pipeline::DogStatsD])"@,
            "dogstatsd.rs"@,
        ),
        adp_only(
            "otlp_config.traces.enable_otlp_compute_top_level_by_span_kind"@,
            "ValueType::Bool"@,
            Some("true"@),
            seq![],
            seq!["OTLP_DECODER_CONFIGURATION"@, "OTLP_CONFIGURATION"@],
            None,
            "PipelineAffinity::Pipelines(&[Pipeline::Traces])"@,
            "otlp.rs"@,
        ),
        adp_only(
            "otlp_config.traces.ignore_missing_datadog_fields"@,
            "ValueType::Bool"@,
            None,
            seq![],
            seq!["OTLP_DECODER_CONFIGURATION"@, "OTLP_CONFIGURATION"@],
            None,
            "PipelineAffinity::Pipelines(&[Pipeline::Traces])"@,
            "otlp.rs"@,
        ),
        adp_only(
            "otlp_config.traces.string_interner_size"@,
            "ValueType::Integer"@,
            None,
            seq![],
            seq!["OTLP_DECODER_CONFIGURATION"@, "OTLP_CONFIGURATION"@],
            None,
            "PipelineAffinity::Pipelines(&[Pipeline::Traces])"@,
            "otlp.rs"@,
        ),
        adp_only(
            "otlp_config.receiver.protocols.http.transport"@,
            "ValueType::String"@,
            None,
            seq![],
            seq!["OTLP_RELAY_CONFIGURATION"@, "OTLP_CONFIGURATION"@],
            None,
            "PipelineAffinity::Pipelines(&[Pipeline::Otlp])"@,
            "otlp.rs"@,
        ),
        adp_only(
            "otlp_allow_context_heap_allocs"@,
            "ValueType::Bool"@,
            Some("true"@),
            seq![],
            seq!["OTLP_CONFIGURATION"@],
            None,
            "PipelineAffinity::Pipelines(&[Pipeline::Otlp])"@,
            "otlp.rs"@,
        ),
        adp_only(
            "otlp_cached_contexts_limit"@,
            "ValueType::Integer"@,
            None,
            seq![],
            seq!["OTLP_CONFIGURATION"@],
            None,
            "PipelineAffinity::Pipelines(&[Pipeline::Otlp])"@,
            "otlp.rs"@,
        ),
        adp_only(
            "otlp_cached_tagsets_limit"@,
            "ValueType::Integer"@,
            None,
            seq![],
            seq!["OTLP_CONFIGURATION"@],
            None,
            "PipelineAffinity::Pipelines(&[Pipeline::Otlp])"@,
            "otlp.rs"@,
        ),
        adp_only(
            "otlp_string_interner_size"@,
            "ValueType::Integer"@,
            None,
            seq![],
            seq!["OTLP_CONFIGURATION"@],
            None,
            "PipelineAffinity::Pipelines(&[Pipeline::Otlp])"@,
            "otlp.rs"@,
        ),
        adp_only(
            "aggregate_window_duration_seconds"@,
            "ValueType::Integer"@,
            None,
            seq![],
            seq!["AGGREGATE_CONFIGURATION"@],
            None,
            "PipelineAffinity::Pipelines(&[Pipeline::DogStatsD, Pipeline::Checks])"@,
            "aggregate.rs"@,
        ),
        adp_only(
            "aggregate_flush_interval"@,
            "ValueType::String"@,
            None,
            seq![],
            seq!["AGGREGATE_CONFIGURATION"@],
            Some(r#"{"secs": 42, "nanos": 0}"#@),
            "PipelineAffinity::Pipelines(&[Pipeline::DogStatsD, Pipeline::Checks])"@,
            "aggregate.rs"@,
        ),
        adp_only(
            "aggregate_context_limit"@,
            "ValueType::Integer"@,
            None,
            seq![],
            seq!["AGGREGATE_CONFIGURATION"@],
            None,
            "PipelineAffinity::Pipelines(&[Pipeline::DogStatsD, Pipeline::Checks])"@,
            "aggregate.rs"@,
        ),
        adp_only(
            "counter_expiry_seconds"@,
            "ValueType::Integer"@,
            None,
            seq!["dogstatsd_expiry_seconds"@],
            seq!["AGGREGATE_CONFIGURATION"@],
            None,
            "PipelineAffinity::Pipelines(&[Pipeline::DogStatsD, Pipeline::Checks])"@,
            "aggregate.rs"@,
        ),
        adp_only(
            "aggregate_passthrough_idle_flush_timeout"@,
            "ValueType::String"@,
            None,
            seq![],
            seq!["AGGREGATE_CONFIGURATION"@],
            Some(r#"{"secs": 42, "nanos": 0}"#@),
            "PipelineAffinity::Pipelines(&[Pipeline::DogStatsD, Pipeline::Checks])"@,
            "aggregate.rs"@,
        ),
        adp_only(
            "apm_config.obfuscation.sql.dbms"@,
            "ValueType::String"@,
            None,
            seq![],
            seq!["TRACE_OBFUSCATION_CONFIGURATION"@],
            None,
            "PipelineAffinity::Pipelines(&[Pipeline::Traces])"@,
            "trace_obfuscation.rs"@,
        ),
        adp_only(
            "apm_config.obfuscation.sql.dollar_quoted_func"@,
            "ValueType::Bool"@,
            None,
            seq![],
            seq!["TRACE_OBFUSCATION_CONFIGURATION"@],
            None,
            "PipelineAffinity::Pipelines(&[Pipeline::Traces])"@,
            "trace_obfuscation.rs"@,
        ),
        adp_only(
            "apm_config.obfuscation.sql.keep_sql_alias"@,
            "ValueType::Bool"@,
            None,
            seq![],
            seq!["TRACE_OBFUSCATION_CONFIGURATION"@],
            None,
            "PipelineAffinity::Pipelines(&[Pipeline::Traces])"@,
            "trace_obfuscation.rs"@,
        ),
        adp_only(
            "apm_config.obfuscation.sql.replace_digits"@,
            "ValueType::Bool"@,
            None,
            seq![],
            seq!["TRACE_OBFUSCATION_CONFIGURATION"@],
            None,
            "PipelineAffinity::Pipelines(&[Pipeline::Traces])"@,
            "trace_obfuscation.rs"@,
        ),
        adp_only(
            "apm_config.obfuscation.sql.table_names"@,
            "ValueType::Bool"@,
            None,
            seq![],
            seq!["TRACE_OBFUSCATION_CONFIGURATION"@],
            None,
            "PipelineAffinity::Pipelines(&[Pipeline::Traces])"@,
            "trace_obfuscation.rs"@,
        ),
        adp_only(
            "flush_timeout_secs"@,
            "ValueType::Integer"@,
            None,
            seq![],
            seq!["DATADOG_APM_STATS_ENCODER_CONFIGURATION"@, "DATADOG_METRICS_CONFIGURATION"@, "DATADOG_TRACE_CONFIGURATION"@],
            None,
            "PipelineAffinity::Pipelines(&[Pipeline::Checks, Pipeline::Traces, Pipeline::DogStatsD])"@,
            "encoders.rs"@,
        ),
        adp_only(
            "serializer_max_metrics_per_payload"@,
            "ValueType::Integer"@,
            None,
            seq![],
            seq!["DATADOG_METRICS_CONFIGURATION"@],
            None,
            "PipelineAffinity::Pipelines(&[Pipeline::Checks, Pipeline::DogStatsD])"@,
            "encoders.rs"@,
        ),
        adp_only(
            "dogstatsd_mapper_string_interner_size"@,
            "ValueType::Integer"@,
            None,
            seq![],
            seq!["DOGSTATSD_MAPPER_CONFIGURATION"@],
            None,
            "PipelineAffinity::Pipelines(&[Pipeline::DogStatsD])"@,
            "dogstatsd_mapper.rs"@,
        ),
    ]
}

fn strings(items: Vec<&str>) -> (r: Vec<String>)
    ensures
        views(r@) == items@.map_values(|s: &str| s@),
{
    let mut r: Vec<String> = Vec::new();
    let mut i: usize = 0;
    while i < items.len()
        invariant
            i <= items.len(),
            views(r@) == items@.take(i as int).map_values(|s: &str| s@),
        decreases items.len() - i,
    {
        let ghost before = r@;
        r.push(owned(items[i]));
        proof {
            assert(views(r@) =~= views(before).push(items@[i as int]@));
            assert(items@.take(i + 1).map_values(|s: &str| s@) =~= items@.take(i as int).map_values(
                |s: &str| s@,
            ).push(items@[i as int]@));
        }
        i = i + 1;
    }
    assert(items@.take(i as int) =~= items@);
    r
}

fn opt_owned(o: Option<&str>) -> (r: Option<String>)
    ensures
        text_of(r) == match o {
            Some(s) => Some(s@),
            None => None,
        },
{
    match o {
        Some(s) => Some(owned(s)),
        None => None,
    }
}

fn saluki(
    yaml_path: &str,
    value_type: &str,
    schema_default: Option<&str>,
    additional_yaml_paths: Vec<&str>,
    used_by: Vec<&str>,
    test_json: Option<&str>,
    pipeline_affinity: &str,
    filename: &str,
) -> (r: SalukiEntry)
    ensures
        r@ == adp_only(
            yaml_path@,
            value_type@,
            match schema_default {
                Some(d) => Some(d@),
                None => None,
            },
            additional_yaml_paths@.map_values(|s: &str| s@),
            used_by@.map_values(|s: &str| s@),
            match test_json {
                Some(t) => Some(t@),
                None => None,
            },
            pipeline_affinity@,
            filename@,
        ),
{
    SalukiEntry {
        yaml_path: owned(yaml_path),
        value_type: owned(value_type),
        schema_default: opt_owned(schema_default),
        env_vars: Vec::new(),
        env_var_override: None,
        additional_yaml_paths: strings(additional_yaml_paths),
        used_by: strings(used_by),
        test_json: opt_owned(test_json),
        pipeline_affinity: owned(pipeline_affinity),
        filename: owned(filename),
    }
}

/// The keys that only ADP reads, which the Datadog Agent's schema lacks.
pub fn saluki_entries() -> (r: Vec<SalukiEntry>)
    ensures
        r@.map_values(|e: SalukiEntry| e@) == saluki_table(),
{
    let dsd = "PipelineAffinity::Pipelines(&[Pipeline::DogStatsD])";
    let traces = "PipelineAffinity::Pipelines(&[Pipeline::Traces])";
    let otlp = "PipelineAffinity::Pipelines(&[Pipeline::Otlp])";
    let agg = "PipelineAffinity::Pipelines(&[Pipeline::DogStatsD, Pipeline::Checks])";
    let duration = r#"{"secs": 42, "nanos": 0}"#;
    let b = "ValueType::Bool";
    let n = "ValueType::Integer";
    let f = "ValueType::Float";
    let st = "ValueType::String";
    let dc = "DOGSTATSD_CONFIGURATION";
    let odc = "OTLP_DECODER_CONFIGURATION";
    let orc = "OTLP_RELAY_CONFIGURATION";
    let oc = "OTLP_CONFIGURATION";
    let ac = "AGGREGATE_CONFIGURATION";
    let toc = "TRACE_OBFUSCATION_CONFIGURATION";
    let ds = "dogstatsd.rs";
    let ot = "otlp.rs";
    let ag = "aggregate.rs";
    let to = "trace_obfuscation.rs";
    let en = "encoders.rs";
    let r = vec![
        saluki("dogstatsd_allow_context_heap_allocs", b, Some("true"), vec![], vec![dc], None, dsd, ds),
        saluki("dogstatsd_autoscale_udp_listeners", b, Some("false"), vec![], vec![dc], None, dsd, ds),
        saluki("dogstatsd_buffer_count", n, None, vec![], vec![dc], None, dsd, ds),
        saluki("dogstatsd_cached_contexts_limit", n, None, vec![], vec![dc], None, dsd, ds),
        saluki("dogstatsd_cached_tagsets_limit", n, None, vec![], vec![dc], None, dsd, ds),
        saluki("dogstatsd_minimum_sample_rate", f, None, vec![], vec![dc], None, dsd, ds),
        saluki("dogstatsd_permissive_decoding", b, Some("true"), vec![], vec![dc], None, dsd, ds),
        saluki("dogstatsd_string_interner_size_bytes", n, None, vec![], vec![dc], None, dsd, ds),
        saluki("dogstatsd_tcp_port", n, None, vec![], vec![dc], None, dsd, ds),
        saluki(
            "otlp_config.traces.enable_otlp_compute_top_level_by_span_kind",
            b,
            Some("true"),
            vec![],
            vec![odc, oc],
            None,
            traces,
            ot,
        ),
        saluki("otlp_config.traces.ignore_missing_datadog_fields", b, None, vec![], vec![odc, oc], None, traces, ot),
        saluki("otlp_config.traces.string_interner_size", n, None, vec![], vec![odc, oc], None, traces, ot),
        saluki("otlp_config.receiver.protocols.http.transport", st, None, vec![], vec![orc, oc], None, otlp, ot),
        saluki("otlp_allow_context_heap_allocs", b, Some("true"), vec![], vec![oc], None, otlp, ot),
        saluki("otlp_cached_contexts_limit", n, None, vec![], vec![oc], None, otlp, ot),
        saluki("otlp_cached_tagsets_limit", n, None, vec![], vec![oc], None, otlp, ot),
        saluki("otlp_string_interner_size", n, None, vec![], vec![oc], None, otlp, ot),
        saluki("aggregate_window_duration_seconds", n, None, vec![], vec![ac], None, agg, ag),
        saluki("aggregate_flush_interval", st, None, vec![], vec![ac], Some(duration), agg, ag),
        saluki("aggregate_context_limit", n, None, vec![], vec![ac], None, agg, ag),
        saluki("counter_expiry_seconds", n, None, vec!["dogstatsd_expiry_seconds"], vec![ac], None, agg, ag),
        saluki("aggregate_passthrough_idle_flush_timeout", st, None, vec![], vec![ac], Some(duration), agg, ag),
        saluki("apm_config.obfuscation.sql.dbms", st, None, vec![], vec![toc], None, traces, to),
        saluki("apm_config.obfuscation.sql.dollar_quoted_func", b, None, vec![], vec![toc], None, traces, to),
        saluki("apm_config.obfuscation.sql.keep_sql_alias", b, None, vec![], vec![toc], None, traces, to),
        saluki("apm_config.obfuscation.sql.replace_digits", b, None, vec![], vec![toc], None, traces, to),
        saluki("apm_config.obfuscation.sql.table_names", b, None, vec![], vec![toc], None, traces, to),
        saluki(
            "flush_timeout_secs",
            n,
            None,
            vec![],
            vec![
                "DATADOG_APM_STATS_ENCODER_CONFIGURATION",
                "DATADOG_METRICS_CONFIGURATION",
                "DATADOG_TRACE_CONFIGURATION",
            ],
            None,
            "PipelineAffinity::Pipelines(&[Pipeline::Checks, Pipeline::Traces, Pipeline::DogStatsD])",
            en,
        ),
        saluki(
            "serializer_max_metrics_per_payload",
            n,
            None,
            vec![],
            vec!["DATADOG_METRICS_CONFIGURATION"],
            None,
            "PipelineAffinity::Pipelines(&[Pipeline::Checks, Pipeline::DogStatsD])",
            en,
        ),
        saluki(
            "dogstatsd_mapper_string_interner_size",
            n,
            None,
            vec![],
            vec!["DOGSTATSD_MAPPER_CONFIGURATION"],
            None,
            dsd,
            "dogstatsd_mapper.rs",
        ),
    ];
    assert(r@.map_values(|e: SalukiEntry| e@) =~~= saluki_table());
    r
}

/// The field values of an ADP-only key's annotation.
pub open spec fn saluki_values(se: SalukiEntry) -> Seq<Seq<char>> {
    seq![
        "&"@ + const_name(se.yaml_path@) + "_SCHEMA"@,
        "SupportLevel::Full"@,
        slice_lit(all_quoted(views(se.additional_yaml_paths@))),
        env_override_lit(opt_views(se.env_var_override), false),
        slice_lit(all_structs(views(se.used_by@))),
        "None"@,
        opt_str_lit(text_of(se.test_json)),
        se.pipeline_affinity@,
    ]
}

/// The annotation of an ADP-only key.
pub open spec fn saluki_annotation(se: SalukiEntry) -> Seq<char> {
    annotation("`"@ + se.yaml_path@ + "`"@, const_name(se.yaml_path@), saluki_values(se))
}

/// Writes the annotation of an ADP-only key.
pub fn emit_saluki_annotation(out: &mut String, se: &SalukiEntry)
    ensures
        final(out)@ == old(out)@ + saluki_annotation(*se),
{
    let name = yaml_path_to_const(se.yaml_path.as_str());
    let mut schema = owned("&");
    push_str(&mut schema, name.as_str());
    push_str(&mut schema, "_SCHEMA");
    let values: Vec<String> = vec![
        schema,
        owned("SupportLevel::Full"),
        alias_literal(&se.additional_yaml_paths),
        env_override_literal(&se.env_var_override, false),
        structs_literal(&se.used_by),
        owned("None"),
        opt_str_literal(&se.test_json),
        owned(se.pipeline_affinity.as_str()),
    ];
    let mut doc = owned("`");
    push_str(&mut doc, se.yaml_path.as_str());
    push_str(&mut doc, "`");
    assert(views(values@) =~= saluki_values(*se));
    push_annotation(out, doc.as_str(), name.as_str(), &values);
}

/// The field values of the annotation of a key ADP cannot honor, with its severity and
/// pipelines' expression.
pub open spec fn incompatible_values(path: Seq<char>, severity: Severity, affinity: Seq<char>) -> Seq<Seq<char>> {
    seq![
        "&super::schema::"@ + const_name(path),
        "SupportLevel::Incompatible("@ + severity_name(severity) + ")"@,
        "&[]"@,
        "None"@,
        "&[]"@,
        "None"@,
        "None"@,
        affinity,
    ]
}

/// The annotation of a key ADP cannot honor.
pub open spec fn incompatible_annotation(
    path: Seq<char>,
    description: Seq<char>,
    severity: Severity,
    affinity: Seq<char>,
) -> Seq<char> {
    annotation("`"@ + path + "`-"@ + description, const_name(path), incompatible_values(path, severity, affinity))
}

fn emit_incompatible_annotation(out: &mut String, yaml_path: &str, description: &str, severity: &Severity, affinity: String)
    ensures
        final(out)@ == old(out)@ + incompatible_annotation(yaml_path@, description@, *severity, affinity@),
{
    let name = yaml_path_to_const(yaml_path);
    let mut schema = owned("&super::schema::");
    push_str(&mut schema, name.as_str());
    let mut level = owned("SupportLevel::Incompatible(");
    push_str(&mut level, severity_str(severity));
    push_str(&mut level, ")");
    let values: Vec<String> = vec![
        schema,
        level,
        owned("&[]"),
        owned("None"),
        owned("&[]"),
        owned("None"),
        owned("None"),
        affinity,
    ];
    let mut doc = owned("`");
    push_str(&mut doc, yaml_path);
    push_str(&mut doc, "`-");
    push_str(&mut doc, description);
    assert(views(values@) =~= incompatible_values(yaml_path@, *severity, affinity@));
    push_annotation(out, doc.as_str(), name.as_str(), &values);
}

/// The paths of keyed entries.
pub open spec fn keys_of<T>(es: Seq<(String, T)>) -> Seq<Seq<char>> {
    es.map_values(|e: (String, T)| e.0@)
}

/// Whether an ADP-only key's path is one of the overlay's keys: supported, unsupported, ignored,
/// or, where `investigated` holds, under investigation.
pub open spec fn collides(path: Seq<char>, o: SchemaOverlay, investigated: bool) -> bool {
    ||| keys_of(o.supported@).contains(path)
    ||| keys_of(o.unsupported@).contains(path)
    ||| (investigated && keys_of(o.investigate@).contains(path))
    ||| views(o.ignored@).contains(path)
}

/// The first ADP-only key, in order, whose path collides with the overlay's keys.
pub open spec fn first_collision(es: Seq<SalukiEntry>, o: SchemaOverlay, investigated: bool) -> Option<Seq<char>>
    decreases es.len(),
{
    if es.len() == 0 {
        None
    } else if collides(es[0].yaml_path@, o, investigated) {
        Some(es[0].yaml_path@)
    } else {
        first_collision(es.drop_first(), o, investigated)
    }
}

fn has_key<T>(es: &Vec<(String, T)>, path: &str) -> (r: bool)
    ensures
        r == keys_of(es@).contains(path@),
{
    let mut i: usize = 0;
    while i < es.len()
        invariant
            i <= es.len(),
            forall|k: int| 0 <= k < i ==> (#[trigger] es@[k]).0@ != path@,
        decreases es.len() - i,
    {
        if str_eq(es[i].0.as_str(), path) {
            assert(keys_of(es@)[i as int] == path@);
            return true;
        }
        i = i + 1;
    }
    proof {
        if keys_of(es@).contains(path@) {
            let k = choose|k: int| 0 <= k < keys_of(es@).len() && keys_of(es@)[k] == path@;
            assert(es@[k].0@ == path@);
        }
    }
    false
}

fn has_string(items: &Vec<String>, path: &str) -> (r: bool)
    ensures
        r == views(items@).contains(path@),
{
    let mut i: usize = 0;
    while i < items.len()
        invariant
            i <= items.len(),
            forall|k: int| 0 <= k < i ==> (#[trigger] items@[k])@ != path@,
        decreases items.len() - i,
    {
        if str_eq(items[i].as_str(), path) {
            assert(views(items@)[i as int] == path@);
            return true;
        }
        i = i + 1;
    }
    proof {
        if views(items@).contains(path@) {
            let k = choose|k: int| 0 <= k < views(items@).len() && views(items@)[k] == path@;
            assert(items@[k]@ == path@);
        }
    }
    false
}

/// Returns the path of the first ADP-only key, in order, that collides with the overlay's keys.
pub fn find_collision(entries: &Vec<SalukiEntry>, overlay: &SchemaOverlay, investigated: bool) -> (r: Option<String>)
    ensures
        text_of(r) == first_collision(entries@, *overlay, investigated),
{
    let mut i: usize = 0;
    assert(entries@.skip(0) =~= entries@);
    while i < entries.len()
        invariant
            i <= entries.len(),
            first_collision(entries@, *overlay, investigated) == first_collision(
                entries@.skip(i as int),
                *overlay,
                investigated,
            ),
        decreases entries.len() - i,
    {
        let p = entries[i].yaml_path.as_str();
        let hit = has_key(&overlay.supported, p) || has_key(&overlay.unsupported, p) || (investigated
            && has_key(&overlay.investigate, p)) || has_string(&overlay.ignored, p);
        assert(entries@.skip(i as int)[0] == entries@[i as int]);
        if hit {
            return Some(owned(p));
        }
        assert(entries@.skip(i as int).drop_first() =~= entries@.skip(i + 1));
        i = i + 1;
    }
    None
}

/// The error for an ADP-only key that collides with one of the overlay's keys; `what` names the
/// entry it should not hard-code.
pub open spec fn collision_message(path: Seq<char>, what: Seq<char>) -> Seq<char> {
    "Saluki entry '"@ + path
        + "' collides with a vendored schema key in the overlay — it should use the schema entry instead of a hard-coded "@
        + what
}

fn collision_error(path: &str, what: &str) -> (r: String)
    ensures
        r@ == collision_message(path@, what@),
{
    let mut r = owned("Saluki entry '");
    push_str(&mut r, path);
    push_str(
        &mut r,
        "' collides with a vendored schema key in the overlay — it should use the schema entry instead of a hard-coded ",
    );
    push_str(&mut r, what);
    r
}

/// Checks that no ADP-only key collides with the overlay's supported, unsupported or ignored keys:
/// the error names the first that does.
pub fn validate_saluki_entries(overlay: &SchemaOverlay, entries: &Vec<SalukiEntry>) -> (r: Result<(), String>)
    ensures
        match first_collision(entries@, *overlay, false) {
            None => r is Ok,
            Some(p) => r matches Err(m) && m@ == collision_message(p, "SchemaEntry"@),
        },
{
    match find_collision(entries, overlay, false) {
        None => Ok(()),
        Some(p) => Err(collision_error(p.as_str(), "SchemaEntry")),
    }
}


/// The first line of the registry's sources written from the overlay alone.
pub open spec fn overlay_banner() -> Seq<char> {
    "// @generated by build.rs from schema_overlay.yaml — DO NOT EDIT\n"@
}

/// The first line of the sources written from the schema and the overlay.
pub open spec fn schema_banner() -> Seq<char> {
    "// @generated by build.rs from core_schema.yaml + schema_overlay.yaml — DO NOT EDIT\n"@
}

/// A schema entry's item: `lead`, its constant's name, and its fields.
pub open spec fn schema_block(
    lead: Seq<char>,
    name: Seq<char>,
    kind: Seq<char>,
    path: Seq<char>,
    env_lit: Seq<char>,
    vt: Seq<char>,
    default_lit: Seq<char>,
) -> Seq<char> {
    lead + name + ": SchemaEntry = SchemaEntry {\n"@ + "    schema: Schema::"@ + kind + ",\n"@
        + "    yaml_path: \""@ + path + "\",\n"@ + "    env_vars: "@ + env_lit + ",\n"@ + "    value_type: "@
        + vt + ",\n"@ + "    default: "@ + default_lit + ",\n"@ + "};\n"@ + "\n"@
}

fn push_schema_block(
    out: &mut String,
    lead: &str,
    name: &str,
    kind: &str,
    path: &str,
    env_lit: &str,
    vt: &str,
    default_lit: &str,
)
    ensures
        final(out)@ == old(out)@ + schema_block(lead@, name@, kind@, path@, env_lit@, vt@, default_lit@),
{
    push_str(out, lead);
    push_str(out, name);
    push_str(out, ": SchemaEntry = SchemaEntry {\n");
    push_str(out, "    schema: Schema::");
    push_str(out, kind);
    push_str(out, ",\n");
    push_str(out, "    yaml_path: \"");
    push_str(out, path);
    push_str(out, "\",\n");
    push_str(out, "    env_vars: ");
    push_str(out, env_lit);
    push_str(out, ",\n");
    push_str(out, "    value_type: ");
    push_str(out, vt);
    push_str(out, ",\n");
    push_str(out, "    default: ");
    push_str(out, default_lit);
    push_str(out, ",\n");
    push_str(out, "};\n");
    push_str(out, "\n");
    assert(out@ =~= old(out)@ + schema_block(lead@, name@, kind@, path@, env_lit@, vt@, default_lit@));
}

/// The note written above a schema entry whose value type is unknown.
pub open spec fn unknown_note(path: Seq<char>) -> Seq<char> {
    "// TODO: unknown type for '"@ + path + "' — set value_type_override in the annotation\n"@
}

/// The schema entry of a Datadog Agent key, after a note where its value type is unknown.
pub open spec fn datadog_schema_entry(path: Seq<char>, info: FieldInfo) -> Seq<char> {
    (if info.value_type == FieldType::Unknown {
        unknown_note(path)
    } else {
        Seq::empty()
    }) + schema_block(
        "pub const "@,
        const_name(path),
        "Datadog"@,
        path,
        slice_lit(all_quoted_escaped(views(info.env_vars@))),
        rust_type_name(info.value_type),
        opt_str_lit(text_of(info.default)),
    )
}

/// The schema entries of the given settings, in order.
pub open spec fn schema_entries(es: Seq<(String, FieldInfo)>) -> Seq<char>
    decreases es.len(),
{
    if es.len() == 0 {
        Seq::empty()
    } else {
        schema_entries(es.drop_last()) + datadog_schema_entry(es.last().0@, es.last().1)
    }
}

/// The schema source: its banner, the preamble, a blank line, and the entries of the settings.
pub open spec fn schema_rs_text(preamble: Seq<char>, settings: Seq<(String, FieldInfo)>) -> Seq<char> {
    schema_banner() + preamble + "\n"@ + schema_entries(settings)
}

fn emit_schema_entry(out: &mut String, path: &str, info: &FieldInfo)
    ensures
        final(out)@ == old(out)@ + datadog_schema_entry(path@, *info),
{
    let ghost start = out@;
    if is_unknown(&info.value_type) {
        push_str(out, "// TODO: unknown type for '");
        push_str(out, path);
        push_str(out, "' — set value_type_override in the annotation\n");
    }
    assert(out@ =~= start + (if info.value_type == FieldType::Unknown {
        unknown_note(path@)
    } else {
        Seq::empty()
    }));
    let name = yaml_path_to_const(path);
    let q = quote_all(&info.env_vars, true);
    let env = slice_literal(&q);
    let default = opt_str_literal(&info.default);
    push_schema_block(
        out,
        "pub const ",
        name.as_str(),
        "Datadog",
        path,
        env.as_str(),
        field_type_as_rust(&info.value_type),
        default.as_str(),
    );
    assert(out@ =~= start + datadog_schema_entry(path@, *info));
}

/// Writes the schema source: the entries of the settings in ascending path order.
pub fn generate_schema_rs(settings: Vec<(String, FieldInfo)>, preamble: &str) -> (r: String)
    ensures
        exists|sorted: Seq<(String, FieldInfo)>|
            #[trigger] sorted_by_path(sorted) && sorted.to_multiset() == settings@.to_multiset() && r@
                == schema_rs_text(preamble@, sorted),
{
    let sorted = sort_by_path(settings);
    let mut out = String::new();
    push_str(&mut out, "// @generated by build.rs from core_schema.yaml + schema_overlay.yaml — DO NOT EDIT\n");
    push_str(&mut out, preamble);
    push_str(&mut out, "\n");
    let mut i: usize = 0;
    assert(sorted@.take(0) =~= Seq::<(String, FieldInfo)>::empty());
    while i < sorted.len()
        invariant
            i <= sorted.len(),
            out@ == schema_banner() + preamble@ + "\n"@ + schema_entries(sorted@.take(i as int)),
        decreases sorted.len() - i,
    {
        emit_schema_entry(&mut out, sorted[i].0.as_str(), &sorted[i].1);
        assert(sorted@.take(i + 1).drop_last() =~= sorted@.take(i as int));
        i = i + 1;
    }
    assert(sorted@.take(i as int) =~= sorted@);
    out
}

/// Whether a supported key's annotation goes to the registry file `f`.
pub open spec fn in_file(e: Supported, f: Seq<char>) -> bool {
    text_of(e.registry_filename) == Some(f)
}

/// The annotations of the supported keys that go to `f`, in order.
pub open spec fn datadog_annotations_in(es: Seq<(String, Supported)>, f: Seq<char>) -> Seq<char>
    decreases es.len(),
{
    if es.len() == 0 {
        Seq::empty()
    } else {
        datadog_annotations_in(es.drop_last(), f) + if in_file(es.last().1, f) {
            datadog_annotation(es.last().0@, es.last().1)
        } else {
            Seq::empty()
        }
    }
}

/// The schema entry of an ADP-only key.
pub open spec fn saluki_schema_block(se: SalukiEntry) -> Seq<char> {
    schema_block(
        "static "@,
        const_name(se.yaml_path@) + "_SCHEMA"@,
        "Saluki"@,
        se.yaml_path@,
        slice_lit(all_quoted(views(se.env_vars@))),
        se.value_type@,
        opt_str_lit(text_of(se.schema_default)),
    )
}

/// The schema entries of the ADP-only keys whose annotations go to `f`, in order.
pub open spec fn saluki_schemas_in(es: Seq<SalukiEntry>, f: Seq<char>) -> Seq<char>
    decreases es.len(),
{
    if es.len() == 0 {
        Seq::empty()
    } else {
        saluki_schemas_in(es.drop_last(), f) + if es.last().filename@ == f {
            saluki_schema_block(es.last())
        } else {
            Seq::empty()
        }
    }
}

/// The annotations of the ADP-only keys that go to `f`, in order.
pub open spec fn saluki_annotations_in(es: Seq<SalukiEntry>, f: Seq<char>) -> Seq<char>
    decreases es.len(),
{
    if es.len() == 0 {
        Seq::empty()
    } else {
        saluki_annotations_in(es.drop_last(), f) + if es.last().filename@ == f {
            saluki_annotation(es.last())
        } else {
            Seq::empty()
        }
    }
}

/// A subsystem's registry file `f`: its banner and the preamble, a blank line, the schema entries
/// of its ADP-only keys, then the annotations of its supported keys and of its ADP-only keys.
pub open spec fn one_file_text(
    preamble: Seq<char>,
    f: Seq<char>,
    supported: Seq<(String, Supported)>,
    saluki: Seq<SalukiEntry>,
) -> Seq<char> {
    overlay_banner() + preamble + "\n"@ + saluki_schemas_in(saluki, f) + "crate::declare_annotations! {\n"@
        + datadog_annotations_in(supported, f) + saluki_annotations_in(saluki, f) + "}\n"@
}

fn file_is(e: &Supported, filename: &str) -> (r: bool)
    ensures
        r == in_file(*e, filename@),
{
    match &e.registry_filename {
        Some(f) => str_eq(f.as_str(), filename),
        None => false,
    }
}

/// Writes the registry file `filename` of a subsystem.
pub fn generate_one_file(filename: &str, overlay: &SchemaOverlay, saluki: &Vec<SalukiEntry>, preamble: &str) -> (r: String)
    ensures
        r@ == one_file_text(preamble@, filename@, overlay.supported@, saluki@),
{
    let mut out = String::new();
    push_str(&mut out, "// @generated by build.rs from schema_overlay.yaml — DO NOT EDIT\n");
    push_str(&mut out, preamble);
    push_str(&mut out, "\n");
    let ghost head = out@;
    let mut i: usize = 0;
    assert(saluki@.take(0) =~= Seq::<SalukiEntry>::empty());
    while i < saluki.len()
        invariant
            i <= saluki.len(),
            out@ == head + saluki_schemas_in(saluki@.take(i as int), filename@),
        decreases saluki.len() - i,
    {
        let se = &saluki[i];
        if str_eq(se.filename.as_str(), filename) {
            let name = yaml_path_to_const(se.yaml_path.as_str());
            let mut sname = owned(name.as_str());
            push_str(&mut sname, "_SCHEMA");
            let q = quote_all(&se.env_vars, false);
            let env = slice_literal(&q);
            let default = opt_str_literal(&se.schema_default);
            push_schema_block(
                &mut out,
                "static ",
                sname.as_str(),
                "Saluki",
                se.yaml_path.as_str(),
                env.as_str(),
                se.value_type.as_str(),
                default.as_str(),
            );
        }
        assert(saluki@.take(i + 1).drop_last() =~= saluki@.take(i as int));
        i = i + 1;
    }
    assert(saluki@.take(i as int) =~= saluki@);
    push_str(&mut out, "crate::declare_annotations! {\n");
    let ghost mid = out@;
    let mut j: usize = 0;
    assert(overlay.supported@.take(0) =~= Seq::<(String, Supported)>::empty());
    while j < overlay.supported.len()
        invariant
            j <= overlay.supported.len(),
            out@ == mid + datadog_annotations_in(overlay.supported@.take(j as int), filename@),
        decreases overlay.supported.len() - j,
    {
        let e = &overlay.supported[j];
        if file_is(&e.1, filename) {
            emit_datadog_annotation(&mut out, e.0.as_str(), &e.1);
        }
        assert(overlay.supported@.take(j + 1).drop_last() =~= overlay.supported@.take(j as int));
        j = j + 1;
    }
    assert(overlay.supported@.take(j as int) =~= overlay.supported@);
    let ghost mid2 = out@;
    let mut k: usize = 0;
    while k < saluki.len()
        invariant
            k <= saluki.len(),
            out@ == mid2 + saluki_annotations_in(saluki@.take(k as int), filename@),
        decreases saluki.len() - k,
    {
        if str_eq(saluki[k].filename.as_str(), filename) {
            emit_saluki_annotation(&mut out, &saluki[k]);
        }
        assert(saluki@.take(k + 1).drop_last() =~= saluki@.take(k as int));
        k = k + 1;
    }
    assert(saluki@.take(k as int) =~= saluki@);
    push_str(&mut out, "}\n");
    out
}

/// The annotations of the unsupported keys, in order.
pub open spec fn unsupported_annotations(es: Seq<(String, Unsupported)>) -> Seq<char>
    decreases es.len(),
{
    if es.len() == 0 {
        Seq::empty()
    } else {
        unsupported_annotations(es.drop_last()) + incompatible_annotation(
            es.last().0@,
            es.last().1.description@,
            es.last().1.severity,
            affinity_expr(es.last().1.pipelines),
        )
    }
}

/// The annotations of the keys under investigation whose severity is known, in order.
pub open spec fn investigate_annotations(es: Seq<(String, Investigate)>) -> Seq<char>
    decreases es.len(),
{
    if es.len() == 0 {
        Seq::empty()
    } else {
        investigate_annotations(es.drop_last()) + match es.last().1.severity {
            Some(sev) => incompatible_annotation(
                es.last().0@,
                es.last().1.description@,
                sev,
                "PipelineAffinity::CrossCutting"@,
            ),
            None => Seq::empty(),
        }
    }
}

/// The source of the unsupported keys' annotations, and of those under investigation whose
/// severity is known.
pub open spec fn unsupported_rs_text(preamble: Seq<char>, o: SchemaOverlay) -> Seq<char> {
    overlay_banner() + preamble + "crate::declare_annotations! {\n"@ + unsupported_annotations(o.unsupported@)
        + investigate_annotations(o.investigate@) + "}\n"@
}

/// Writes the source of the unsupported keys' annotations.
pub fn generate_unsupported_rs(overlay: &SchemaOverlay, preamble: &str) -> (r: String)
    ensures
        r@ == unsupported_rs_text(preamble@, *overlay),
{
    let mut out = String::new();
    push_str(&mut out, "// @generated by build.rs from schema_overlay.yaml — DO NOT EDIT\n");
    push_str(&mut out, preamble);
    push_str(&mut out, "crate::declare_annotations! {\n");
    let ghost head = out@;
    let mut i: usize = 0;
    assert(overlay.unsupported@.take(0) =~= Seq::<(String, Unsupported)>::empty());
    while i < overlay.unsupported.len()
        invariant
            i <= overlay.unsupported.len(),
            out@ == head + unsupported_annotations(overlay.unsupported@.take(i as int)),
        decreases overlay.unsupported.len() - i,
    {
        let e = &overlay.unsupported[i];
        let affinity = overlay_pipeline_affinity_expr(&e.1.pipelines);
        emit_incompatible_annotation(&mut out, e.0.as_str(), e.1.description.as_str(), &e.1.severity, affinity);
        assert(overlay.unsupported@.take(i + 1).drop_last() =~= overlay.unsupported@.take(i as int));
        i = i + 1;
    }
    assert(overlay.unsupported@.take(i as int) =~= overlay.unsupported@);
    let ghost mid = out@;
    let mut j: usize = 0;
    assert(overlay.investigate@.take(0) =~= Seq::<(String, Investigate)>::empty());
    while j < overlay.investigate.len()
        invariant
            j <= overlay.investigate.len(),
            out@ == mid + investigate_annotations(overlay.investigate@.take(j as int)),
        decreases overlay.investigate.len() - j,
    {
        let e = &overlay.investigate[j];
        match &e.1.severity {
            Some(sev) => {
                emit_incompatible_annotation(
                    &mut out,
                    e.0.as_str(),
                    e.1.description.as_str(),
                    sev,
                    owned("PipelineAffinity::CrossCutting"),
                );
            },
            None => {},
        }
        assert(overlay.investigate@.take(j + 1).drop_last() =~= overlay.investigate@.take(j as int));
        j = j + 1;
    }
    assert(overlay.investigate@.take(j as int) =~= overlay.investigate@);
    push_str(&mut out, "}\n");
    out
}


/// The registry files named by the supported keys among `supported` and by the ADP-only keys.
pub open spec fn names_in(supported: Seq<(String, Supported)>, saluki: Seq<SalukiEntry>) -> Set<Seq<char>> {
    Set::new(
        |f: Seq<char>|
            (exists|i: int| 0 <= i < supported.len() && in_file(#[trigger] supported[i].1, f)) || (exists|i: int|
                0 <= i < saluki.len() && (#[trigger] saluki[i]).filename@ == f),
    )
}

/// Whether texts are in strictly ascending order.
pub open spec fn strictly_ascending(s: Seq<Seq<char>>) -> bool {
    forall|i: int, j: int| 0 <= i < j < s.len() ==> chars_le(#[trigger] s[i], #[trigger] s[j]) && s[i] != s[j]
}

proof fn lemma_insert_ascending(s: Seq<Seq<char>>, p: int, x: Seq<char>)
    requires
        strictly_ascending(s),
        0 <= p <= s.len(),
        forall|i: int| 0 <= i < p ==> chars_le(#[trigger] s[i], x) && s[i] != x,
        p < s.len() ==> !chars_le(s[p], x),
    ensures
        strictly_ascending(s.insert(p, x)),
{
    let t = s.insert(p, x);
    if p < s.len() {
        lemma_chars_le_total(s[p], x);
        if s[p] == x {
            crate::remote_config::product::lemma_chars_le_reflexive(x);
        }
    }
    assert forall|i: int, j: int| 0 <= i < j < t.len() implies chars_le(#[trigger] t[i], #[trigger] t[j]) && t[i]
        != t[j] by {
        if j < p {
            assert(t[i] == s[i] && t[j] == s[j]);
        } else if j == p {
            assert(t[i] == s[i]);
        } else if i == p {
            assert(t[j] == s[j - 1]);
            if j - 1 > p {
                lemma_chars_le_transitive(x, s[p], s[j - 1]);
                if x == s[j - 1] {
                    lemma_chars_le_antisymmetric(s[p], x);
                }
            }
        } else if i < p {
            assert(t[i] == s[i] && t[j] == s[j - 1]);
        } else {
            assert(t[i] == s[i - 1] && t[j] == s[j - 1]);
        }
    }
}

fn insert_name(names: &mut Vec<String>, x: &str)
    requires
        strictly_ascending(views(old(names)@)),
    ensures
        strictly_ascending(views(final(names)@)),
        views(final(names)@).to_set() == views(old(names)@).to_set().insert(x@),
{
    let ghost before = views(names@);
    let mut p: usize = 0;
    while p < names.len() && config_id_le(&ConfigId::new(names[p].as_str()), &ConfigId::new(x)) && !str_eq(
        names[p].as_str(),
        x,
    )
        invariant
            p <= names.len(),
            views(names@) == before,
            forall|i: int| 0 <= i < p ==> chars_le(#[trigger] before[i], x@) && before[i] != x@,
        decreases names.len() - p,
    {
        p = p + 1;
    }
    if p < names.len() && str_eq(names[p].as_str(), x) {
        assert(before.to_set() =~= before.to_set().insert(x@)) by {
            assert(before.contains(before[p as int]));
        }
        return ;
    }
    proof {
        lemma_insert_ascending(before, p as int, x@);
    }
    names.insert(p, owned(x));
    proof {
        assert(views(names@) =~= before.insert(p as int, x@));
        assert forall|y: Seq<char>| #[trigger] views(names@).to_set().contains(y) <==> before.to_set().insert(x@).contains(y) by {
            let t = before.insert(p as int, x@);
            if before.contains(y) {
                let k = choose|k: int| 0 <= k < before.len() && before[k] == y;
                if k < p {
                    assert(t[k] == y);
                } else {
                    assert(t[k + 1] == y);
                }
            }
            if y == x@ {
                assert(t[p as int] == y);
            }
            if t.contains(y) {
                let k = choose|k: int| 0 <= k < t.len() && t[k] == y;
                if k < p {
                    assert(before[k] == y);
                } else if k > p {
                    assert(before[k - 1] == y);
                }
            }
        }
        assert(views(names@).to_set() =~= before.to_set().insert(x@));
    }
}

/// Returns the registry files, named by the supported keys and by the ADP-only keys, once each and
/// in ascending order.
pub fn registry_files(overlay: &SchemaOverlay, saluki: &Vec<SalukiEntry>) -> (r: Vec<String>)
    ensures
        strictly_ascending(views(r@)),
        views(r@).to_set() == names_in(overlay.supported@, saluki@),
{
    let mut names: Vec<String> = Vec::new();
    let mut i: usize = 0;
    assert(views(names@).to_set() =~= names_in(overlay.supported@.take(0), Seq::empty()));
    while i < overlay.supported.len()
        invariant
            i <= overlay.supported.len(),
            strictly_ascending(views(names@)),
            views(names@).to_set() == names_in(overlay.supported@.take(i as int), Seq::empty()),
        decreases overlay.supported.len() - i,
    {
        let ghost sup = overlay.supported@;
        match &overlay.supported[i].1.registry_filename {
            Some(f) => {
                insert_name(&mut names, f.as_str());
                assert(views(names@).to_set() =~= names_in(sup.take(i + 1), Seq::empty())) by {
                    assert forall|g: Seq<char>| #[trigger] names_in(sup.take(i + 1), Seq::empty()).contains(g) <==> (
                    names_in(sup.take(i as int), Seq::empty()).contains(g) || g == f@) by {
                        if names_in(sup.take(i + 1), Seq::empty()).contains(g) {
                            let k = choose|k: int| 0 <= k < i + 1 && in_file(#[trigger] sup.take(i + 1)[k].1, g);
                            if k < i {
                                assert(sup.take(i as int)[k] == sup.take(i + 1)[k]);
                            }
                        }
                        if names_in(sup.take(i as int), Seq::empty()).contains(g) {
                            let k = choose|k: int| 0 <= k < i && in_file(#[trigger] sup.take(i as int)[k].1, g);
                            assert(sup.take(i + 1)[k] == sup.take(i as int)[k]);
                        }
                        if g == f@ {
                            assert(in_file(sup.take(i + 1)[i as int].1, g));
                        }
                    }
                }
            },
            None => {
                assert(views(names@).to_set() =~= names_in(sup.take(i + 1), Seq::empty())) by {
                    assert forall|g: Seq<char>| #[trigger] names_in(sup.take(i + 1), Seq::empty()).contains(g) <==> names_in(
                        sup.take(i as int),
                        Seq::empty(),
                    ).contains(g) by {
                        if names_in(sup.take(i + 1), Seq::empty()).contains(g) {
                            let k = choose|k: int| 0 <= k < i + 1 && in_file(#[trigger] sup.take(i + 1)[k].1, g);
                            if k < i {
                                assert(sup.take(i as int)[k] == sup.take(i + 1)[k]);
                            }
                        }
                        if names_in(sup.take(i as int), Seq::empty()).contains(g) {
                            let k = choose|k: int| 0 <= k < i && in_file(#[trigger] sup.take(i as int)[k].1, g);
                            assert(sup.take(i + 1)[k] == sup.take(i as int)[k]);
                        }
                    }
                }
            },
        }
        i = i + 1;
    }
    assert(overlay.supported@.take(i as int) =~= overlay.supported@);
    let mut j: usize = 0;
    assert(names_in(overlay.supported@, saluki@.take(0)) =~= names_in(overlay.supported@, Seq::empty()));
    while j < saluki.len()
        invariant
            j <= saluki.len(),
            strictly_ascending(views(names@)),
            views(names@).to_set() == names_in(overlay.supported@, saluki@.take(j as int)),
        decreases saluki.len() - j,
    {
        let ghost sal = saluki@;
        let ghost sup = overlay.supported@;
        insert_name(&mut names, saluki[j].filename.as_str());
        assert(views(names@).to_set() =~= names_in(sup, sal.take(j + 1))) by {
            assert forall|g: Seq<char>| #[trigger] names_in(sup, sal.take(j + 1)).contains(g) <==> (names_in(
                sup,
                sal.take(j as int),
            ).contains(g) || g == sal[j as int].filename@) by {
                if names_in(sup, sal.take(j + 1)).contains(g) && !(exists|i: int|
                    0 <= i < sup.len() && in_file(#[trigger] sup[i].1, g)) {
                    let k = choose|k: int| 0 <= k < j + 1 && (#[trigger] sal.take(j + 1)[k]).filename@ == g;
                    if k < j {
                        assert(sal.take(j as int)[k] == sal.take(j + 1)[k]);
                    }
                }
                if names_in(sup, sal.take(j as int)).contains(g) && !(exists|i: int|
                    0 <= i < sup.len() && in_file(#[trigger] sup[i].1, g)) {
                    let k = choose|k: int| 0 <= k < j && (#[trigger] sal.take(j as int)[k]).filename@ == g;
                    assert(sal.take(j + 1)[k] == sal.take(j as int)[k]);
                }
                if g == sal[j as int].filename@ {
                    assert(sal.take(j + 1)[j as int].filename@ == g);
                }
            }
        }
        j = j + 1;
    }
    assert(saluki@.take(j as int) =~= saluki@);
    names
}

/// Strictly ascending texts are fixed by the set of them.
pub proof fn lemma_ascending_unique(a: Seq<Seq<char>>, b: Seq<Seq<char>>)
    requires
        strictly_ascending(a),
        strictly_ascending(b),
        a.to_set() == b.to_set(),
    ensures
        a == b,
    decreases a.len(),
{
    if a.len() == 0 {
        if b.len() > 0 {
            assert(b.to_set().contains(b[0]));
        }
        assert(a =~= b);
    } else {
        assert(a.to_set().contains(a[0]));
        assert(b.contains(a[0]));
        let k = choose|k: int| 0 <= k < b.len() && b[k] == a[0];
        assert(b.to_set().contains(b[0]));
        assert(a.contains(b[0]));
        let m = choose|m: int| 0 <= m < a.len() && a[m] == b[0];
        if k > 0 {
            assert(chars_le(b[0], b[k]) && b[0] != b[k]);
            if m > 0 {
                assert(chars_le(a[0], a[m]));
                lemma_chars_le_antisymmetric(a[0], b[0]);
            }
        }
        assert(a[0] == b[0]);
        let a1 = a.drop_first();
        let b1 = b.drop_first();
        assert forall|x: Seq<char>| a1.to_set().contains(x) <==> b1.to_set().contains(x) by {
            if a1.contains(x) {
                let i = choose|i: int| 0 <= i < a1.len() && a1[i] == x;
                assert(a[i + 1] == x && x != a[0]);
                assert(b.contains(x)) by {
                    assert(a.to_set().contains(x));
                }
                let j = choose|j: int| 0 <= j < b.len() && b[j] == x;
                assert(j != 0);
                assert(b1[j - 1] == x);
            }
            if b1.contains(x) {
                let i = choose|i: int| 0 <= i < b1.len() && b1[i] == x;
                assert(b[i + 1] == x && x != b[0]);
                assert(a.contains(x)) by {
                    assert(b.to_set().contains(x));
                }
                let j = choose|j: int| 0 <= j < a.len() && a[j] == x;
                assert(j != 0);
                assert(a1[j - 1] == x);
            }
        }
        assert(a1.to_set() =~= b1.to_set());
        lemma_ascending_unique(a1, b1);
        assert(a =~= b) by {
            assert forall|i: int| 0 <= i < a.len() implies a[i] == b[i] by {
                if i > 0 {
                    assert(a[i] == a1[i - 1] && b[i] == b1[i - 1]);
                }
            }
        }
    }
}


/// A file name without its trailing `.rs` suffixes, each removed in turn.
pub open spec fn stem(f: Seq<char>) -> Seq<char>
    decreases f.len(),
{
    if f.len() >= 3 && f[f.len() - 3] == '.' && f[f.len() - 2] == 'r' && f[f.len() - 1] == 's' {
        stem(f.take(f.len() - 3))
    } else {
        f
    }
}

/// Returns a file name without its trailing `.rs` suffixes.
pub fn stem_of(f: &str) -> (r: String)
    ensures
        r@ == stem(f@),
{
    let chars = chars_of(f);
    let mut n: usize = chars.len();
    assert(f@.take(n as int) =~= f@);
    while n >= 3 && chars[n - 3] == '.' && chars[n - 2] == 'r' && chars[n - 1] == 's'
        invariant
            n <= chars.len(),
            chars@ == f@,
            stem(f@) == stem(f@.take(n as int)),
        decreases n,
    {
        assert(f@.take(n as int).take(n - 3) =~= f@.take(n - 3));
        n = n - 3;
    }
    let mut r = String::new();
    let mut i: usize = 0;
    while i < n
        invariant
            i <= n <= chars.len(),
            chars@ == f@,
            r@ == f@.take(i as int),
        decreases n - i,
    {
        push_char(&mut r, chars[i]);
        assert(f@.take(i + 1) =~= f@.take(i as int).push(chars@[i as int]));
        i = i + 1;
    }
    r
}

/// The line that imports the registry's items into its module.
pub open spec fn use_line() -> Seq<char> {
    "use crate::config_registry::{Pipeline, PipelineAffinity, SalukiAnnotation, Schema, SchemaEntry, Severity, SupportLevel, ValueType, structs};\n"@
}

/// The body of a module that includes the written source `f`.
pub open spec fn include_lines(f: Seq<char>) -> Seq<char> {
    "    #[allow(unused_imports)]\n"@ + "    use super::*;\n"@ + "    include!(concat!(env!(\"OUT_DIR\"), \"/config_registry/"@
        + f + "\"));\n"@
}

fn push_include_lines(out: &mut String, f: &str)
    ensures
        final(out)@ == old(out)@ + include_lines(f@),
{
    push_str(out, "    #[allow(unused_imports)]\n");
    push_str(out, "    use super::*;\n");
    push_str(out, "    include!(concat!(env!(\"OUT_DIR\"), \"/config_registry/");
    push_str(out, f);
    push_str(out, "\"));\n");
    assert(out@ =~= old(out)@ + include_lines(f@));
}

/// The module of a subsystem's written source.
pub open spec fn mod_block(f: Seq<char>) -> Seq<char> {
    "mod "@ + stem(f) + " {\n"@ + include_lines(f) + "}\n"@ + "\n"@
}

/// The line that adds a subsystem's annotations to the supported ones.
pub open spec fn extend_line(f: Seq<char>) -> Seq<char> {
    "    v.extend_from_slice("@ + stem(f) + "::ALL);\n"@
}

/// The declaration of a subsystem's module in the source tree.
pub open spec fn mod_decl(f: Seq<char>) -> Seq<char> {
    "mod "@ + stem(f) + ";\n"@
}

/// The given texts, one after the other.
pub open spec fn concat(parts: Seq<Seq<char>>) -> Seq<char>
    decreases parts.len(),
{
    if parts.len() == 0 {
        Seq::empty()
    } else {
        concat(parts.drop_last()) + parts.last()
    }
}

/// The statics that gather the annotations: the supported ones of each file, the unsupported
/// ones, and all of them.
pub open spec fn statics_text(files: Seq<Seq<char>>) -> Seq<char> {
    "use std::sync::LazyLock;\n"@ + "\n"@
        + "pub static SUPPORTED_ANNOTATIONS: LazyLock<Vec<&'static SalukiAnnotation>> = LazyLock::new(|| {\n"@
        + "    let mut v: Vec<&'static SalukiAnnotation> = Vec::new();\n"@ + concat(
        files.map_values(|f: Seq<char>| extend_line(f)),
    ) + "    v\n"@ + "});\n"@ + "\n"@
        + "pub static UNSUPPORTED_ANNOTATIONS: LazyLock<Vec<&'static SalukiAnnotation>> = LazyLock::new(|| {\n"@
        + "    let mut v: Vec<&'static SalukiAnnotation> = Vec::new();\n"@ + "    v.extend_from_slice(unsupported::ALL);\n"@
        + "    v\n"@ + "});\n"@ + "\n"@
        + "pub static ALL_ANNOTATIONS: LazyLock<Vec<&'static SalukiAnnotation>> = LazyLock::new(|| {\n"@
        + "    let mut v = SUPPORTED_ANNOTATIONS.clone();\n"@ + "    v.extend_from_slice(&UNSUPPORTED_ANNOTATIONS);\n"@
        + "    v\n"@ + "});\n"@
}

/// A subsystem file's module block, its line in the supported statics, or its module
/// declaration, as `kind` is 0, 1 or 2.
pub open spec fn each_text(kind: u8, f: Seq<char>) -> Seq<char> {
    if kind == 0 {
        mod_block(f)
    } else if kind == 1 {
        extend_line(f)
    } else {
        mod_decl(f)
    }
}

fn push_each(out: &mut String, files: &Vec<String>, kind: u8)
    requires
        kind < 3,
    ensures
        final(out)@ == old(out)@ + concat(views(files@).map_values(|f: Seq<char>| each_text(kind, f))),
{
    let mut i: usize = 0;
    assert(views(files@.take(0)).map_values(|f: Seq<char>| each_text(kind, f)) =~= Seq::<Seq<char>>::empty());
    while i < files.len()
        invariant
            i <= files.len(),
            kind < 3,
            out@ == old(out)@ + concat(views(files@.take(i as int)).map_values(|f: Seq<char>| each_text(kind, f))),
        decreases files.len() - i,
    {
        let ghost before = out@;
        let f = files[i].as_str();
        let st = stem_of(f);
        if kind == 0 {
            push_str(out, "mod ");
            push_str(out, st.as_str());
            push_str(out, " {\n");
            push_include_lines(out, f);
            push_str(out, "}\n");
            push_str(out, "\n");
            assert(out@ =~= before + mod_block(f@));
        } else if kind == 1 {
            push_str(out, "    v.extend_from_slice(");
            push_str(out, st.as_str());
            push_str(out, "::ALL);\n");
            assert(out@ =~= before + extend_line(f@));
        } else {
            push_str(out, "mod ");
            push_str(out, st.as_str());
            push_str(out, ";\n");
            assert(out@ =~= before + mod_decl(f@));
        }
        proof {
            let m = views(files@.take(i + 1)).map_values(|f: Seq<char>| each_text(kind, f));
            assert(m.drop_last() =~= views(files@.take(i as int)).map_values(|f: Seq<char>| each_text(kind, f)));
            assert(m.last() == each_text(kind, f@));
            assert(out@ =~= before + each_text(kind, f@));
        }
        i = i + 1;
    }
    assert(files@.take(i as int) =~= files@);
}

fn push_statics(out: &mut String, files: &Vec<String>)
    ensures
        final(out)@ == old(out)@ + statics_text(views(files@)),
{
    push_str(out, "use std::sync::LazyLock;\n");
    push_str(out, "\n");
    push_str(
        out,
        "pub static SUPPORTED_ANNOTATIONS: LazyLock<Vec<&'static SalukiAnnotation>> = LazyLock::new(|| {\n",
    );
    push_str(out, "    let mut v: Vec<&'static SalukiAnnotation> = Vec::new();\n");
    let ghost a = out@;
    push_each(out, files, 1);
    let ghost b = out@;
    push_str(out, "    v\n");
    push_str(out, "});\n");
    push_str(out, "\n");
    push_str(
        out,
        "pub static UNSUPPORTED_ANNOTATIONS: LazyLock<Vec<&'static SalukiAnnotation>> = LazyLock::new(|| {\n",
    );
    push_str(out, "    let mut v: Vec<&'static SalukiAnnotation> = Vec::new();\n");
    push_str(out, "    v.extend_from_slice(unsupported::ALL);\n");
    push_str(out, "    v\n");
    push_str(out, "});\n");
    push_str(out, "\n");
    push_str(out, "pub static ALL_ANNOTATIONS: LazyLock<Vec<&'static SalukiAnnotation>> = LazyLock::new(|| {\n");
    push_str(out, "    let mut v = SUPPORTED_ANNOTATIONS.clone();\n");
    push_str(out, "    v.extend_from_slice(&UNSUPPORTED_ANNOTATIONS);\n");
    push_str(out, "    v\n");
    push_str(out, "});\n");
    assert(views(files@).map_values(|f: Seq<char>| extend_line(f)) =~= views(files@).map_values(|f: Seq<char>| each_text(1u8, f)));
    assert(out@ =~= old(out)@ + statics_text(views(files@)));
}

/// The registry's module, which includes the written sources of the schema, of each subsystem's
/// file `files` and of the unsupported keys.
pub open spec fn mod_rs_text(files: Seq<Seq<char>>) -> Seq<char> {
    overlay_banner() + "\n"@ + use_line() + "\n"@ + "#[allow(dead_code)]\n"@ + "mod schema {\n"@ + include_lines(
        "schema.rs"@,
    ) + "}\n"@ + "\n"@ + concat(files.map_values(|f: Seq<char>| mod_block(f))) + "pub(super) mod unsupported {\n"@
        + include_lines("unsupported.rs"@) + "}\n"@ + "\n"@ + statics_text(files)
}

/// The registry's module in the source tree, which declares the modules of the schema, of each
/// subsystem's file `files` and of the unsupported keys.
pub open spec fn mod_rs_in_tree_text(files: Seq<Seq<char>>) -> Seq<char> {
    overlay_banner() + "\n"@ + use_line() + "\n"@ + "#[allow(dead_code)]\n"@ + "mod schema;\n"@ + "\n"@ + concat(
        files.map_values(|f: Seq<char>| mod_decl(f)),
    ) + "\n"@ + "pub(super) mod unsupported;\n"@ + "\n"@ + statics_text(files)
}

fn mod_rs_for(files: &Vec<String>, in_tree: bool) -> (r: String)
    ensures
        r@ == if in_tree {
            mod_rs_in_tree_text(views(files@))
        } else {
            mod_rs_text(views(files@))
        },
{
    let mut out = String::new();
    push_str(&mut out, "// @generated by build.rs from schema_overlay.yaml — DO NOT EDIT\n");
    push_str(&mut out, "\n");
    push_str(
        &mut out,
        "use crate::config_registry::{Pipeline, PipelineAffinity, SalukiAnnotation, Schema, SchemaEntry, Severity, SupportLevel, ValueType, structs};\n",
    );
    push_str(&mut out, "\n");
    push_str(&mut out, "#[allow(dead_code)]\n");
    let ghost head = out@;
    if in_tree {
        push_str(&mut out, "mod schema;\n");
        push_str(&mut out, "\n");
        let ghost a = out@;
        push_each(&mut out, files, 2);
        push_str(&mut out, "\n");
        push_str(&mut out, "pub(super) mod unsupported;\n");
        push_str(&mut out, "\n");
        let ghost b = out@;
        push_statics(&mut out, files);
        assert(views(files@).map_values(|f: Seq<char>| mod_decl(f)) =~= views(files@).map_values(|f: Seq<char>| each_text(2u8, f)));
        assert(out@ =~= mod_rs_in_tree_text(views(files@)));
    } else {
        push_str(&mut out, "mod schema {\n");
        push_include_lines(&mut out, "schema.rs");
        push_str(&mut out, "}\n");
        push_str(&mut out, "\n");
        let ghost a = out@;
        push_each(&mut out, files, 0);
        push_str(&mut out, "pub(super) mod unsupported {\n");
        push_include_lines(&mut out, "unsupported.rs");
        push_str(&mut out, "}\n");
        push_str(&mut out, "\n");
        let ghost b = out@;
        push_statics(&mut out, files);
        assert(views(files@).map_values(|f: Seq<char>| mod_block(f)) =~= views(files@).map_values(|f: Seq<char>| each_text(0u8, f)));
        assert(out@ =~= mod_rs_text(views(files@)));
    }
    out
}

/// Writes the registry's module, which includes each written source.
pub fn generate_mod_rs(overlay: &SchemaOverlay, saluki: &Vec<SalukiEntry>) -> (r: String)
    ensures
        exists|files: Seq<Seq<char>>|
            #[trigger] strictly_ascending(files) && files.to_set() == names_in(overlay.supported@, saluki@) && r@
                == mod_rs_text(files),
{
    let files = registry_files(overlay, saluki);
    mod_rs_for(&files, false)
}

/// Writes the registry's module for the source tree, which declares each source's module.
pub fn generate_mod_rs_in_tree(overlay: &SchemaOverlay, saluki: &Vec<SalukiEntry>) -> (r: String)
    ensures
        exists|files: Seq<Seq<char>>|
            #[trigger] strictly_ascending(files) && files.to_set() == names_in(overlay.supported@, saluki@) && r@
                == mod_rs_in_tree_text(files),
{
    let files = registry_files(overlay, saluki);
    mod_rs_for(&files, true)
}


/// The first supported key, in order, that names no registry file.
pub open spec fn first_unfiled(es: Seq<(String, Supported)>) -> Option<Seq<char>>
    decreases es.len(),
{
    if es.len() == 0 {
        None
    } else if es[0].1.registry_filename is None {
        Some(es[0].0@)
    } else {
        first_unfiled(es.drop_first())
    }
}

/// The error for a supported key that names no registry file.
pub open spec fn unfiled_message(path: Seq<char>) -> Seq<char> {
    "supported key '"@ + path + "' missing config_registry_filename"@
}

fn find_unfiled(es: &Vec<(String, Supported)>) -> (r: Option<String>)
    ensures
        text_of(r) == first_unfiled(es@),
{
    let mut i: usize = 0;
    assert(es@.skip(0) =~= es@);
    while i < es.len()
        invariant
            i <= es.len(),
            first_unfiled(es@) == first_unfiled(es@.skip(i as int)),
        decreases es.len() - i,
    {
        assert(es@.skip(i as int)[0] == es@[i as int]);
        if es[i].1.registry_filename.is_none() {
            return Some(owned(es[i].0.as_str()));
        }
        assert(es@.skip(i as int).drop_first() =~= es@.skip(i + 1));
        i = i + 1;
    }
    None
}

/// Written sources as plain values: each file's name and contents.
pub open spec fn files_view(fs: Seq<(String, String)>) -> Seq<(Seq<char>, Seq<char>)> {
    fs.map_values(|e: (String, String)| (e.0@, e.1@))
}

/// The subsystems' registry files, one for each of `names`, in order.
pub open spec fn subsystem_files(
    preamble: Seq<char>,
    names: Seq<Seq<char>>,
    o: SchemaOverlay,
    saluki: Seq<SalukiEntry>,
) -> Seq<(Seq<char>, Seq<char>)> {
    names.map_values(|f: Seq<char>| (f, one_file_text(preamble, f, o.supported@, saluki)))
}

fn subsystem_texts(names: &Vec<String>, overlay: &SchemaOverlay, saluki: &Vec<SalukiEntry>, preamble: &str) -> (r: Vec<
    (String, String),
>)
    ensures
        files_view(r@) == subsystem_files(preamble@, views(names@), *overlay, saluki@),
{
    let mut r: Vec<(String, String)> = Vec::new();
    let mut i: usize = 0;
    while i < names.len()
        invariant
            i <= names.len(),
            files_view(r@) == subsystem_files(preamble@, views(names@.take(i as int)), *overlay, saluki@),
        decreases names.len() - i,
    {
        let ghost before = r@;
        let text = generate_one_file(names[i].as_str(), overlay, saluki, preamble);
        r.push((owned(names[i].as_str()), text));
        proof {
            assert(files_view(r@) =~= files_view(before).push((names@[i as int]@, text@)));
            assert(views(names@.take(i + 1)) =~= views(names@.take(i as int)).push(names@[i as int]@));
            assert(files_view(r@) =~= subsystem_files(preamble@, views(names@.take(i + 1)), *overlay, saluki@));
        }
        i = i + 1;
    }
    assert(names@.take(i as int) =~= names@);
    r
}

/// Writes the registry file of each subsystem, in ascending name order; the error names the first
/// supported key that names no registry file.
pub fn generate_subsystem_files(overlay: &SchemaOverlay, saluki: &Vec<SalukiEntry>, preamble: &str) -> (r: Result<
    Vec<(String, String)>,
    String,
>)
    ensures
        match first_unfiled(overlay.supported@) {
            Some(p) => r matches Err(m) && m@ == unfiled_message(p),
            None => r matches Ok(fs) && exists|names: Seq<Seq<char>>|
                #[trigger] strictly_ascending(names) && names.to_set() == names_in(overlay.supported@, saluki@)
                    && files_view(fs@) == subsystem_files(preamble@, names, *overlay, saluki@),
        },
{
    match find_unfiled(&overlay.supported) {
        Some(p) => {
            let mut m = owned("supported key '");
            push_str(&mut m, p.as_str());
            push_str(&mut m, "' missing config_registry_filename");
            Err(m)
        },
        None => {
            let names = registry_files(overlay, saluki);
            Ok(subsystem_texts(&names, overlay, saluki, preamble))
        },
    }
}

/// The preamble of the sources written into the source tree, which makes each a module of its own.
pub open spec fn in_tree_preamble() -> Seq<char> {
    "#[allow(unused_imports)]\nuse super::*;\n\n"@
}

/// The registry's sources, in the order they are written: the schema's, each subsystem's in the
/// order of `names`, the unsupported keys', and the module's.
pub open spec fn registry_outputs(
    in_tree: bool,
    settings: Seq<(String, FieldInfo)>,
    names: Seq<Seq<char>>,
    o: SchemaOverlay,
    saluki: Seq<SalukiEntry>,
) -> Seq<(Seq<char>, Seq<char>)> {
    let preamble = if in_tree {
        in_tree_preamble()
    } else {
        ""@
    };
    seq![("schema.rs"@, schema_rs_text(preamble, settings))] + subsystem_files(preamble, names, o, saluki) + seq![
        ("unsupported.rs"@, unsupported_rs_text(preamble, o)),
        (
            "mod.rs"@,
            if in_tree {
                mod_rs_in_tree_text(names)
            } else {
                mod_rs_text(names)
            },
        ),
    ]
}

/// Whether `r` is what writing the registry's sources gives: the error for the first ADP-only key
/// that collides with the overlay's keys; else the error for the first supported key that names no
/// registry file; else the sources, the schema's settings in ascending path order and the
/// subsystems' files in ascending name order.
pub open spec fn is_registry_result(
    r: Result<Vec<(String, String)>, String>,
    in_tree: bool,
    o: SchemaOverlay,
    settings: Seq<(String, FieldInfo)>,
    saluki: Seq<SalukiEntry>,
) -> bool {
    match first_collision(saluki, o, false) {
        Some(p) => r matches Err(m) && m@ == collision_message(p, "SchemaEntry"@),
        None => match first_unfiled(o.supported@) {
            Some(p) => r matches Err(m) && m@ == unfiled_message(p),
            None => r matches Ok(fs) && exists|sorted: Seq<(String, FieldInfo)>, names: Seq<Seq<char>>|
                #![trigger sorted_by_path(sorted), strictly_ascending(names)]
                sorted_by_path(sorted) && sorted.to_multiset() == settings.to_multiset() && strictly_ascending(names)
                    && names.to_set() == names_in(o.supported@, saluki) && files_view(fs@) == registry_outputs(
                    in_tree,
                    sorted,
                    names,
                    o,
                    saluki,
                ),
        },
    }
}

fn generate_files(overlay: &SchemaOverlay, settings: Vec<(String, FieldInfo)>, saluki: &Vec<SalukiEntry>, in_tree: bool) -> (r: Result<
    Vec<(String, String)>,
    String,
>)
    ensures
        is_registry_result(r, in_tree, *overlay, settings@, saluki@),
{
    let ghost given = settings@;
    match validate_saluki_entries(overlay, saluki) {
        Err(m) => {
            return Err(m);
        },
        Ok(()) => {},
    }
    let preamble = if in_tree {
        "#[allow(unused_imports)]\nuse super::*;\n\n"
    } else {
        ""
    };
    let schema = generate_schema_rs(settings, preamble);
    let subsystems = match generate_subsystem_files(overlay, saluki, preamble) {
        Err(m) => {
            return Err(m);
        },
        Ok(fs) => fs,
    };
    let names = registry_files(overlay, saluki);
    let unsupported = generate_unsupported_rs(overlay, preamble);
    let module = mod_rs_for(&names, in_tree);
    let mut files: Vec<(String, String)> = Vec::new();
    files.push((owned("schema.rs"), schema));
    let ghost subs = subsystems@;
    let mut subsystems = subsystems;
    files.append(&mut subsystems);
    files.push((owned("unsupported.rs"), unsupported));
    files.push((owned("mod.rs"), module));
    proof {
        let sorted = choose|sorted: Seq<(String, FieldInfo)>|
            #[trigger] sorted_by_path(sorted) && sorted.to_multiset() == given.to_multiset() && schema@
                == schema_rs_text(preamble@, sorted);
        let ns = choose|ns: Seq<Seq<char>>|
            #[trigger] strictly_ascending(ns) && ns.to_set() == names_in(overlay.supported@, saluki@) && files_view(
                subs,
            ) == subsystem_files(preamble@, ns, *overlay, saluki@);
        lemma_ascending_unique(ns, views(names@));
        assert(files_view(files@) =~= registry_outputs(in_tree, sorted, ns, *overlay, saluki@));
    }
    Ok(files)
}

/// Writes the registry's sources: the schema's, each subsystem's, the unsupported keys' and the
/// module that includes them.
pub fn generate(overlay: &SchemaOverlay, settings: Vec<(String, FieldInfo)>, saluki: &Vec<SalukiEntry>) -> (r: Result<
    Vec<(String, String)>,
    String,
>)
    ensures
        is_registry_result(r, false, *overlay, settings@, saluki@),
{
    generate_files(overlay, settings, saluki, false)
}

/// Writes the registry's sources for the source tree: each starts with a preamble that makes it a
/// module of its own, and the module declares them.
pub fn generate_in_tree(overlay: &SchemaOverlay, settings: Vec<(String, FieldInfo)>, saluki: &Vec<SalukiEntry>) -> (r: Result<
    Vec<(String, String)>,
    String,
>)
    ensures
        is_registry_result(r, true, *overlay, settings@, saluki@),
{
    generate_files(overlay, settings, saluki, true)
}

} // verus!
