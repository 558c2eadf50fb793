use wgpu_llm::template::{render, TemplateVars};
use wgpu_llm::text::decimal_string;

#[test]
fn test_render() {
    let template = "{{test}}";
    let mut vars = TemplateVars::new();
    vars.insert("test", "replace".to_string());

    let result = render(template, &vars);

    assert_eq!(result, "replace");
}

#[test]
fn render_without_variables_keeps_template() {
    let vars = TemplateVars::new();
    assert_eq!(render("a {{X}} b", &vars), "a {{X}} b");
}

#[test]
fn render_replaces_every_occurrence() {
    let mut vars = TemplateVars::new();
    vars.insert("N", "64".to_string());
    assert_eq!(render("{{N}}x{{N}}+{{N}}", &vars), "64x64+64");
}

#[test]
fn render_leaves_unknown_and_partial_placeholders() {
    let mut vars = TemplateVars::new();
    vars.insert("N", "8".to_string());
    assert_eq!(render("{{M}} {N} {{N} {{N}}", &vars), "{{M}} {N} {{N} 8");
}

#[test]
fn render_scans_left_to_right_without_overlap() {
    let mut vars = TemplateVars::new();
    vars.insert("A", "z".to_string());
    assert_eq!(render("{{{A}}}}", &vars), "{z}}");
    assert_eq!(render("{{A}}{{A}}", &vars), "zz");
}

#[test]
fn render_applies_variables_in_insertion_order() {
    let mut vars = TemplateVars::new();
    vars.insert("A", "{{B}}".to_string());
    vars.insert("B", "b".to_string());
    assert_eq!(render("{{A}}", &vars), "b");

    let mut vars = TemplateVars::new();
    vars.insert("B", "b".to_string());
    vars.insert("A", "{{B}}".to_string());
    assert_eq!(render("{{A}}", &vars), "{{B}}");
}

#[test]
fn render_is_order_independent_for_well_formed_templates() {
    let template = "const M = {{M}}u; const N = {{N}}u; @workgroup_size({{WG}})";
    let mut first = TemplateVars::new();
    first.insert("M", "3".to_string());
    first.insert("N", "4".to_string());
    first.insert("WG", "256".to_string());
    let mut second = TemplateVars::new();
    second.insert("WG", "256".to_string());
    second.insert("N", "4".to_string());
    second.insert("M", "3".to_string());
    let expected = "const M = 3u; const N = 4u; @workgroup_size(256)";
    assert_eq!(render(template, &first), expected);
    assert_eq!(render(template, &second), expected);
}

#[test]
fn render_handles_unicode_text() {
    let mut vars = TemplateVars::new();
    vars.insert("名", "値".to_string());
    assert_eq!(render("α{{名}}β", &vars), "α値β");
}

#[test]
fn insert_sets_and_overwrites_like_a_map() {
    let mut vars = TemplateVars::new();
    assert_eq!(vars.len(), 0);
    assert_eq!(vars.get("K"), None);
    vars.insert("K", "1".to_string());
    vars.insert("L", "2".to_string());
    vars.insert("K", "3".to_string());
    assert_eq!(vars.len(), 2);
    assert_eq!(vars.get("K"), Some(&"3".to_string()));
    assert_eq!(vars.get("L"), Some(&"2".to_string()));
    assert_eq!(vars.get("M"), None);
    assert_eq!(render("{{K}}{{L}}", &vars), "32");
}

#[test]
fn decimal_string_matches_to_string() {
    for n in [0u32, 7, 9, 10, 16, 99, 100, 256, 1024, 50257, 4294967295] {
        assert_eq!(decimal_string(n), n.to_string());
    }
}
