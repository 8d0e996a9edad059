use specifier_rewrite::SpecifierRewriter;
use specifier_rewrite::TransformVisitor;

fn rewriter_without_aliases() -> SpecifierRewriter {
    let visitor = TransformVisitor::new();
    visitor.rewriter().unwrap()
}

fn rewriter_with_aliases(patterns: Vec<&str>) -> SpecifierRewriter {
    let mut visitor = TransformVisitor::new();
    let owned: Vec<String> = patterns.iter().map(|p| p.to_string()).collect();
    visitor.set_config(Some(owned));
    visitor.rewriter().unwrap()
}

#[test]
fn add_extension_to_no_extension_import() {
    let rw = rewriter_without_aliases();
    assert_eq!(rw.rewrite("./hogehoge"), "./hogehoge.js");
    assert_eq!(rw.rewrite("../pppoe"), "../pppoe.js");
    assert_eq!(rw.rewrite("./utils"), "./utils.js");
}

#[test]
fn rewrite_extension_ts_to_js() {
    let rw = rewriter_without_aliases();
    assert_eq!(rw.rewrite("./hogehoge.ts"), "./hogehoge.js");
    assert_eq!(rw.rewrite("../pppoe.ts"), "../pppoe.js");
}

#[test]
fn do_nothing_if_extension_is_js() {
    let rw = rewriter_without_aliases();
    assert_eq!(rw.rewrite("./hogehoge.js"), "./hogehoge.js");
    assert_eq!(rw.rewrite("../pppoe.js"), "../pppoe.js");
}

#[test]
fn do_nothing_if_module_import() {
    let rw = rewriter_without_aliases();
    assert_eq!(rw.rewrite("hogehoge"), "hogehoge");
    assert_eq!(rw.rewrite("hogehoge/hogehoge"), "hogehoge/hogehoge");
    assert_eq!(rw.rewrite("@hogehoge/fugafuga"), "@hogehoge/fugafuga");
}

#[test]
fn add_extension_to_no_extension_import_with_alias() {
    let rw = rewriter_with_aliases(vec!["@/*"]);
    assert_eq!(rw.rewrite("@/hogehoge"), "@/hogehoge.js");
    assert_eq!(rw.rewrite("@/pppoe"), "@/pppoe.js");
}

#[test]
fn rewrite_extension_ts_to_js_with_alias() {
    let rw = rewriter_with_aliases(vec!["@/*"]);
    assert_eq!(rw.rewrite("@/hogehoge.ts"), "@/hogehoge.js");
    assert_eq!(rw.rewrite("@/pppoe.ts"), "@/pppoe.js");
}

#[test]
fn do_nothing_if_module_import_with_alias() {
    let rw = rewriter_with_aliases(vec!["@/*"]);
    assert_eq!(rw.rewrite("hogehoge"), "hogehoge");
    assert_eq!(rw.rewrite("hogehoge/hogehoge"), "hogehoge/hogehoge");
    assert_eq!(rw.rewrite("@hogehoge/fugafuga"), "@hogehoge/fugafuga");
}

#[test]
fn do_nothing_if_no_alias_configured() {
    let rw = rewriter_without_aliases();
    assert_eq!(rw.rewrite("@/hogehoge"), "@/hogehoge");
    assert_eq!(rw.rewrite("@/pppoe.ts"), "@/pppoe.ts");
}

#[test]
fn for_export() {
    let rw = rewriter_with_aliases(vec!["@/*"]);
    assert_eq!(rw.rewrite_source(Some("hogehoge")), Some("hogehoge".to_string()));
    assert_eq!(rw.rewrite_source(Some("@/pppoe.ts")), Some("@/pppoe.js".to_string()));
    assert_eq!(rw.rewrite_source(Some("@/hogehoge")), Some("@/hogehoge.js".to_string()));
}

#[test]
fn export_without_source_is_skipped() {
    let rw = rewriter_with_aliases(vec!["@/*"]);
    assert_eq!(rw.rewrite_source(None), None);
    let rw2 = rewriter_without_aliases();
    assert_eq!(rw2.rewrite_source(None), None);
}

#[test]
fn whole_module_with_empty_configuration() {
    let mut visitor = TransformVisitor::new();
    visitor.set_config(Some(vec![]));
    let rw = visitor.rewriter().unwrap();
    let sources = vec!["./hogehoge", "../pppoe.ts", "hogehoge", "@hogehoge/fugafuga"];
    let outputs: Vec<String> = sources.iter().map(|s| rw.rewrite(s)).collect();
    assert_eq!(
        outputs,
        vec!["./hogehoge.js", "../pppoe.js", "hogehoge", "@hogehoge/fugafuga"]
    );
}

#[test]
fn rewrite_is_idempotent() {
    let plain = rewriter_without_aliases();
    let aliased = rewriter_with_aliases(vec!["@/*", "~/**"]);
    let inputs = vec![
        "./hogehoge",
        "../pppoe.ts",
        "./already.js",
        "hogehoge",
        "@/hogehoge",
        "@/pppoe.ts",
        "~/deep/path.ts",
        "",
        "./",
        "./x.json",
    ];
    for s in inputs {
        let once = plain.rewrite(s);
        assert_eq!(plain.rewrite(&once), once);
        let once = aliased.rewrite(s);
        assert_eq!(aliased.rewrite(&once), once);
    }
}

#[test]
fn only_trailing_ts_is_replaced() {
    let rw = rewriter_without_aliases();
    assert_eq!(rw.rewrite("./a.ts/b"), "./a.ts/b.js");
    assert_eq!(rw.rewrite("./a.ts.ts"), "./a.ts.js");
}

#[test]
fn other_extensions_get_js_appended() {
    let rw = rewriter_without_aliases();
    assert_eq!(rw.rewrite("./data.json"), "./data.json.js");
    assert_eq!(rw.rewrite("@/data.json"), "@/data.json");
    let aliased = rewriter_with_aliases(vec!["@/*"]);
    assert_eq!(aliased.rewrite("@/data.json"), "@/data.json.js");
}

#[test]
fn star_does_not_cross_separators() {
    let rw = rewriter_with_aliases(vec!["@/*"]);
    assert_eq!(rw.rewrite("@/a/b"), "@/a/b");
    assert_eq!(rw.rewrite("@/a"), "@/a.js");
    let deep = rewriter_with_aliases(vec!["@/**"]);
    assert_eq!(deep.rewrite("@/a/b"), "@/a/b.js");
}

#[test]
fn unusual_specifiers_are_normalized_not_rejected() {
    let rw = rewriter_without_aliases();
    assert_eq!(rw.rewrite(""), "");
    assert_eq!(rw.rewrite("./"), "./.js");
    assert_eq!(rw.rewrite("./.ts"), "./.ts.js");
    assert_eq!(rw.rewrite(".ts"), ".ts");
    assert_eq!(rw.rewrite("/absolute/x.ts"), "/absolute/x.ts");
}
