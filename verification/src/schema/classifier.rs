//! The classifier's data: one entry for each classified key, with its aliases, support level,
//! pipelines and schema default.

use vstd::prelude::*;

use crate::config_system::validate::Severity;
use crate::schema::fields::{text_of, FieldInfo};
use crate::schema::overlay::{Investigate, SchemaOverlay, Supported, Unsupported};
use crate::schema::registry::{
    affinity_expr, alias_literal, all_quoted, collision_message, field_lines, find_collision, first_collision,
    opt_str_lit, opt_str_literal, overlay_pipeline_affinity_expr, overlay_support_level, push_fields, quoted,
    schema_banner, severity_name, slice_lit, support_level_name, SalukiEntry,
};
use crate::text::{owned, push_str, str_eq, views};

verus! {

/// The fields of a classifier entry, in order.
pub open spec fn classifier_fields() -> Seq<Seq<char>> {
    seq!["yaml_path"@, "aliases"@, "support_level"@, "pipeline_affinity"@, "default"@]
}

fn classifier_field_names() -> (v: Vec<&'static str>)
    ensures
        v@.map_values(|s: &str| s@) == classifier_fields(),
{
    let v: Vec<&'static str> = vec!["yaml_path", "aliases", "support_level", "pipeline_affinity", "default"];
    assert(v@.map_values(|s: &str| s@) =~= classifier_fields());
    v
}

/// A classifier entry with the given field values.
pub open spec fn classifier_entry(values: Seq<Seq<char>>) -> Seq<char> {
    "    ClassifierEntry {\n"@ + field_lines(classifier_fields(), values) + "    },\n"@
}

fn push_entry(out: &mut String, values: &Vec<String>)
    requires
        values.len() == 5,
    ensures
        final(out)@ == old(out)@ + classifier_entry(views(values@)),
{
    push_str(out, "    ClassifierEntry {\n");
    let names = classifier_field_names();
    push_fields(out, &names, values);
    push_str(out, "    },\n");
}

/// The default the schema gives a key: that of the first setting with its path, if any.
pub open spec fn schema_default_of(settings: Seq<(String, FieldInfo)>, path: Seq<char>) -> Option<Seq<char>>
    decreases settings.len(),
{
    if settings.len() == 0 {
        None
    } else if settings[0].0@ == path {
        text_of(settings[0].1.default)
    } else {
        schema_default_of(settings.drop_first(), path)
    }
}

/// Returns the literal of the default the schema gives a key.
pub fn schema_default_literal(yaml_path: &str, settings: &Vec<(String, FieldInfo)>) -> (r: String)
    ensures
        r@ == opt_str_lit(schema_default_of(settings@, yaml_path@)),
{
    let mut i: usize = 0;
    assert(settings@.skip(0) =~= settings@);
    while i < settings.len()
        invariant
            i <= settings.len(),
            schema_default_of(settings@, yaml_path@) == schema_default_of(settings@.skip(i as int), yaml_path@),
        decreases settings.len() - i,
    {
        assert(settings@.skip(i as int)[0] == settings@[i as int]);
        if str_eq(settings[i].0.as_str(), yaml_path) {
            return opt_str_literal(&settings[i].1.default);
        }
        assert(settings@.skip(i as int).drop_first() =~= settings@.skip(i + 1));
        i = i + 1;
    }
    owned("None")
}

/// The entries of the supported keys, in order.
pub open spec fn supported_entries(es: Seq<(String, Supported)>, settings: Seq<(String, FieldInfo)>) -> Seq<char>
    decreases es.len(),
{
    if es.len() == 0 {
        Seq::empty()
    } else {
        let (path, e) = (es.last().0@, es.last().1);
        supported_entries(es.drop_last(), settings) + classifier_entry(
            seq![
                quoted(path),
                slice_lit(all_quoted(views(e.additional_yaml_paths@))),
                support_level_name(e.support_level),
                affinity_expr(e.pipelines),
                opt_str_lit(schema_default_of(settings, path)),
            ],
        )
    }
}

/// The values of an incompatible key's entry.
pub open spec fn incompatible_values(
    path: Seq<char>,
    severity: Severity,
    affinity: Seq<char>,
    settings: Seq<(String, FieldInfo)>,
) -> Seq<Seq<char>> {
    seq![
        quoted(path),
        "&[]"@,
        "SupportLevel::Incompatible("@ + severity_name(severity) + ")"@,
        affinity,
        opt_str_lit(schema_default_of(settings, path)),
    ]
}

/// The entries of the unsupported keys, in order.
pub open spec fn unsupported_entries(es: Seq<(String, Unsupported)>, settings: Seq<(String, FieldInfo)>) -> Seq<char>
    decreases es.len(),
{
    if es.len() == 0 {
        Seq::empty()
    } else {
        unsupported_entries(es.drop_last(), settings) + classifier_entry(
            incompatible_values(es.last().0@, es.last().1.severity, affinity_expr(es.last().1.pipelines), settings),
        )
    }
}

/// The entries of the keys under investigation whose severity is known, in order.
pub open spec fn investigate_entries(es: Seq<(String, Investigate)>, settings: Seq<(String, FieldInfo)>) -> Seq<char>
    decreases es.len(),
{
    if es.len() == 0 {
        Seq::empty()
    } else {
        investigate_entries(es.drop_last(), settings) + match es.last().1.severity {
            Some(sev) => classifier_entry(
                incompatible_values(es.last().0@, sev, "PipelineAffinity::CrossCutting"@, settings),
            ),
            None => Seq::empty(),
        }
    }
}

/// The entries of the ADP-only keys, in order.
pub open spec fn saluki_entries_text(es: Seq<SalukiEntry>) -> Seq<char>
    decreases es.len(),
{
    if es.len() == 0 {
        Seq::empty()
    } else {
        let se = es.last();
        saluki_entries_text(es.drop_last()) + classifier_entry(
            seq![
                quoted(se.yaml_path@),
                slice_lit(all_quoted(views(se.additional_yaml_paths@))),
                "SupportLevel::Full"@,
                se.pipeline_affinity@,
                opt_str_lit(text_of(se.schema_default)),
            ],
        )
    }
}

/// The classifier's data: the entries of the supported, unsupported, investigated and ADP-only
/// keys, in that order.
pub open spec fn classifier_text(o: SchemaOverlay, settings: Seq<(String, FieldInfo)>, saluki: Seq<SalukiEntry>) -> Seq<
    char,
> {
    schema_banner() + "\n"@ + "pub(crate) static CLASSIFIER_ENTRIES: &[ClassifierEntry] = &[\n"@ + supported_entries(
        o.supported@,
        settings,
    ) + unsupported_entries(o.unsupported@, settings) + investigate_entries(o.investigate@, settings)
        + saluki_entries_text(saluki) + "];\n"@
}

fn quote(s: &str) -> (r: String)
    ensures
        r@ == quoted(s@),
{
    let mut r = owned("\"");
    push_str(&mut r, s);
    push_str(&mut r, "\"");
    r
}

fn severity_level(s: &Severity) -> (r: String)
    ensures
        r@ == "SupportLevel::Incompatible("@ + severity_name(*s) + ")"@,
{
    let mut r = owned("SupportLevel::Incompatible(");
    match s {
        Severity::Low => push_str(&mut r, "Severity::Low"),
        Severity::Medium => push_str(&mut r, "Severity::Medium"),
        Severity::High => push_str(&mut r, "Severity::High"),
    }
    push_str(&mut r, ")");
    r
}

fn push_supported(out: &mut String, overlay: &SchemaOverlay, settings: &Vec<(String, FieldInfo)>)
    ensures
        final(out)@ == old(out)@ + supported_entries(overlay.supported@, settings@),
{
    let mut i: usize = 0;
    assert(overlay.supported@.take(0) =~= Seq::<(String, Supported)>::empty());
    while i < overlay.supported.len()
        invariant
            i <= overlay.supported.len(),
            out@ == old(out)@ + supported_entries(overlay.supported@.take(i as int), settings@),
        decreases overlay.supported.len() - i,
    {
        let (path, e) = (&overlay.supported[i].0, &overlay.supported[i].1);
        let values: Vec<String> = vec![
            quote(path.as_str()),
            alias_literal(&e.additional_yaml_paths),
            owned(overlay_support_level(&e.support_level)),
            overlay_pipeline_affinity_expr(&e.pipelines),
            schema_default_literal(path.as_str(), settings),
        ];
        push_entry(out, &values);
        proof {
            let t = overlay.supported@.take(i + 1);
            assert(t.drop_last() =~= overlay.supported@.take(i as int));
            assert(views(values@) =~= seq![
                quoted(t.last().0@),
                slice_lit(all_quoted(views(t.last().1.additional_yaml_paths@))),
                support_level_name(t.last().1.support_level),
                affinity_expr(t.last().1.pipelines),
                opt_str_lit(schema_default_of(settings@, t.last().0@)),
            ]);
        }
        i = i + 1;
    }
    assert(overlay.supported@.take(i as int) =~= overlay.supported@);
}

fn push_unsupported(out: &mut String, overlay: &SchemaOverlay, settings: &Vec<(String, FieldInfo)>)
    ensures
        final(out)@ == old(out)@ + unsupported_entries(overlay.unsupported@, settings@),
{
    let mut i: usize = 0;
    assert(overlay.unsupported@.take(0) =~= Seq::<(String, Unsupported)>::empty());
    while i < overlay.unsupported.len()
        invariant
            i <= overlay.unsupported.len(),
            out@ == old(out)@ + unsupported_entries(overlay.unsupported@.take(i as int), settings@),
        decreases overlay.unsupported.len() - i,
    {
        let (path, e) = (&overlay.unsupported[i].0, &overlay.unsupported[i].1);
        let values: Vec<String> = vec![
            quote(path.as_str()),
            owned("&[]"),
            severity_level(&e.severity),
            overlay_pipeline_affinity_expr(&e.pipelines),
            schema_default_literal(path.as_str(), settings),
        ];
        push_entry(out, &values);
        proof {
            let t = overlay.unsupported@.take(i + 1);
            assert(t.drop_last() =~= overlay.unsupported@.take(i as int));
            assert(views(values@) =~= incompatible_values(
                t.last().0@,
                t.last().1.severity,
                affinity_expr(t.last().1.pipelines),
                settings@,
            ));
        }
        i = i + 1;
    }
    assert(overlay.unsupported@.take(i as int) =~= overlay.unsupported@);
}

fn push_investigate(out: &mut String, overlay: &SchemaOverlay, settings: &Vec<(String, FieldInfo)>)
    ensures
        final(out)@ == old(out)@ + investigate_entries(overlay.investigate@, settings@),
{
    let mut i: usize = 0;
    assert(overlay.investigate@.take(0) =~= Seq::<(String, Investigate)>::empty());
    while i < overlay.investigate.len()
        invariant
            i <= overlay.investigate.len(),
            out@ == old(out)@ + investigate_entries(overlay.investigate@.take(i as int), settings@),
        decreases overlay.investigate.len() - i,
    {
        let (path, e) = (&overlay.investigate[i].0, &overlay.investigate[i].1);
        let ghost before = out@;
        match &e.severity {
            Some(sev) => {
                let values: Vec<String> = vec![
                    quote(path.as_str()),
                    owned("&[]"),
                    severity_level(sev),
                    owned("PipelineAffinity::CrossCutting"),
                    schema_default_literal(path.as_str(), settings),
                ];
                push_entry(out, &values);
                assert(views(values@) =~= incompatible_values(
                    path@,
                    *sev,
                    "PipelineAffinity::CrossCutting"@,
                    settings@,
                ));
            },
            None => {},
        }
        assert(overlay.investigate@.take(i + 1).drop_last() =~= overlay.investigate@.take(i as int));
        i = i + 1;
    }
    assert(overlay.investigate@.take(i as int) =~= overlay.investigate@);
}

fn push_saluki(out: &mut String, saluki: &Vec<SalukiEntry>)
    ensures
        final(out)@ == old(out)@ + saluki_entries_text(saluki@),
{
    let mut i: usize = 0;
    assert(saluki@.take(0) =~= Seq::<SalukiEntry>::empty());
    while i < saluki.len()
        invariant
            i <= saluki.len(),
            out@ == old(out)@ + saluki_entries_text(saluki@.take(i as int)),
        decreases saluki.len() - i,
    {
        let se = &saluki[i];
        let values: Vec<String> = vec![
            quote(se.yaml_path.as_str()),
            alias_literal(&se.additional_yaml_paths),
            owned("SupportLevel::Full"),
            owned(se.pipeline_affinity.as_str()),
            opt_str_literal(&se.schema_default),
        ];
        push_entry(out, &values);
        proof {
            let t = saluki@.take(i + 1);
            assert(t.drop_last() =~= saluki@.take(i as int));
            assert(views(values@) =~= seq![
                quoted(t.last().yaml_path@),
                slice_lit(all_quoted(views(t.last().additional_yaml_paths@))),
                "SupportLevel::Full"@,
                t.last().pipeline_affinity@,
                opt_str_lit(text_of(t.last().schema_default)),
            ]);
        }
        i = i + 1;
    }
    assert(saluki@.take(i as int) =~= saluki@);
}

/// Writes the classifier's data; the error names the first ADP-only key whose path is one of the
/// overlay's keys, those under investigation included.
pub fn generate(overlay: &SchemaOverlay, settings: &Vec<(String, FieldInfo)>, saluki: &Vec<SalukiEntry>) -> (r: Result<
    String,
    String,
>)
    ensures
        match first_collision(saluki@, *overlay, true) {
            Some(p) => r matches Err(m) && m@ == collision_message(p, "entry"@),
            None => r matches Ok(text) && text@ == classifier_text(*overlay, settings@, saluki@),
        },
{
    match find_collision(saluki, overlay, true) {
        Some(p) => {
            let mut m = owned("Saluki entry '");
            push_str(&mut m, p.as_str());
            push_str(
                &mut m,
                "' collides with a vendored schema key in the overlay — it should use the schema entry instead of a hard-coded ",
            );
            push_str(&mut m, "entry");
            Err(m)
        },
        None => {
            let mut out = String::new();
            push_str(&mut out, "// @generated by build.rs from core_schema.yaml + schema_overlay.yaml — DO NOT EDIT\n");
            push_str(&mut out, "\n");
            push_str(&mut out, "pub(crate) static CLASSIFIER_ENTRIES: &[ClassifierEntry] = &[\n");
            push_supported(&mut out, overlay, settings);
            push_unsupported(&mut out, overlay, settings);
            push_investigate(&mut out, overlay, settings);
            push_saluki(&mut out, saluki);
            push_str(&mut out, "];\n");
            Ok(out)
        },
    }
}

} // verus!
