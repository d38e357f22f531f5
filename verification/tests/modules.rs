use bua::builtins::BuiltinRegistry;
use bua::graph::ModuleGraph;
use bua::loader::{LoadPlan, ModuleLoader};
use bua::record::{
    detect_top_level_await, extract_quoted_specifier, extract_static_imports, ModuleRecord,
    ModuleStatus,
};
use bua::resolver::{ModuleResolver, ResolveContext, ResolvePlan};
use bua::transpiler::{strip_typescript_stub, Transpiler};

fn make_record(path: &str) -> ModuleRecord {
    let mut r = ModuleRecord::new(path.to_string(), path.to_string(), String::new());
    r.status = ModuleStatus::Linked;
    r
}

fn s(x: &str) -> String {
    x.to_string()
}

#[test]
fn linear_dependency_order() {
    let mut graph = ModuleGraph::new();
    graph.insert(make_record("/a.js"));
    graph.insert(make_record("/b.js"));
    graph.insert(make_record("/c.js"));
    graph.add_edge(&s("/a.js"), &s("/b.js"));
    graph.add_edge(&s("/b.js"), &s("/c.js"));

    let order = graph.eval_order(&s("/a.js")).unwrap();
    let paths: Vec<&str> = order.iter().map(|p| p.as_str()).collect();

    let c_pos = paths.iter().position(|&p| p == "/c.js").unwrap();
    let b_pos = paths.iter().position(|&p| p == "/b.js").unwrap();
    let a_pos = paths.iter().position(|&p| p == "/a.js").unwrap();
    assert!(c_pos < b_pos);
    assert!(b_pos < a_pos);
}

#[test]
fn cycle_does_not_panic() {
    let mut graph = ModuleGraph::new();
    graph.insert(make_record("/a.js"));
    graph.insert(make_record("/b.js"));
    graph.add_edge(&s("/a.js"), &s("/b.js"));
    graph.add_edge(&s("/b.js"), &s("/a.js"));

    let order = graph.eval_order(&s("/a.js")).unwrap();
    assert!(order.len() > 0);
}

#[test]
fn diamond_dependency_deduped() {
    let mut graph = ModuleGraph::new();
    for p in &["/a.js", "/b.js", "/c.js", "/d.js"] {
        graph.insert(make_record(p));
    }
    graph.add_edge(&s("/a.js"), &s("/b.js"));
    graph.add_edge(&s("/a.js"), &s("/c.js"));
    graph.add_edge(&s("/b.js"), &s("/d.js"));
    graph.add_edge(&s("/c.js"), &s("/d.js"));

    let order = graph.eval_order(&s("/a.js")).unwrap();
    let d_count = order.iter().filter(|p| p.as_str() == "/d.js").count();
    assert_eq!(d_count, 1);
    assert_eq!(order.len(), 4);
    let paths: Vec<&str> = order.iter().map(|p| p.as_str()).collect();
    assert_eq!(paths, vec!["/d.js", "/b.js", "/c.js", "/a.js"]);
    let again = graph.eval_order(&s("/a.js")).unwrap();
    assert_eq!(again.iter().map(|p| p.as_str()).collect::<Vec<_>>(), paths);
}

#[test]
fn missing_entry_errors() {
    let graph = ModuleGraph::new();
    assert!(graph.eval_order(&s("/nonexistent.js")).is_err());
}

#[test]
fn eval_order_is_post_order_with_entry_last() {
    let mut graph = ModuleGraph::new();
    for p in &["/a.js", "/b.js", "/c.js"] {
        graph.insert(make_record(p));
    }
    graph.add_edge(&s("/a.js"), &s("/b.js"));
    graph.add_edge(&s("/a.js"), &s("/c.js"));
    graph.add_edge(&s("/a.js"), &s("/missing.js"));
    let order = graph.eval_order(&s("/a.js")).unwrap();
    let paths: Vec<&str> = order.iter().map(|p| p.as_str()).collect();
    assert_eq!(paths, vec!["/b.js", "/c.js", "/a.js"]);
    let err = graph.eval_order(&s("/missing.js")).unwrap_err();
    assert_eq!(err.message(), "module not found: /missing.js");
}

#[test]
fn graph_stats_and_failures() {
    let mut graph = ModuleGraph::new();
    graph.insert(make_record("/a.js"));
    let mut tla = ModuleRecord::new(s("/b.js"), s("./b"), s("await start();\n"));
    tla.finish_eval();
    graph.insert(tla);
    graph.insert(make_record("/c.js"));
    graph.get_mut(&s("/c.js")).unwrap().fail(s("boom"));
    graph.add_edge(&s("/a.js"), &s("/b.js"));
    graph.add_edge(&s("/a.js"), &s("/c.js"));
    let st = graph.stats();
    assert_eq!(st.total, 3);
    assert_eq!(st.evaluated, 1);
    assert_eq!(st.failed, 1);
    assert_eq!(st.pending, 1);
    assert_eq!(st.has_top_level_await, 1);
    assert_eq!(st.edge_count, 2);
    assert_eq!(graph.failed_modules(), vec![("/c.js", "boom")]);
    assert_eq!(st.evaluated + st.failed + st.pending, st.total);
    assert_eq!(st.failed, graph.failed_modules().len());
    assert!(graph.contains(&s("/b.js")));
    assert!(!graph.contains(&s("/x.js")));
    assert_eq!(graph.len(), 3);
}

#[test]
fn extracts_import_specifiers() {
    let src = r#"
import foo from './foo.js';
import { bar } from '../bar';
import type { Baz } from './types';
import 'bua:fs';
export { x } from './x';
"#;
    let imports = extract_static_imports(src);
    let specs: Vec<&str> = imports.iter().map(|i| i.specifier.as_str()).collect();
    assert!(specs.contains(&"./foo.js"));
    assert!(specs.contains(&"../bar"));
    assert!(specs.contains(&"bua:fs"));
    assert!(specs.contains(&"./x"));
}

#[test]
fn type_only_flagged() {
    let src = "import type { Foo } from './types';\n";
    let imports = extract_static_imports(src);
    assert!(imports.iter().any(|i| i.is_type_only));
}

#[test]
fn dynamic_import_flagged() {
    let src = "const m = import('./lazy.js');\n";
    let imports = extract_static_imports(src);
    assert!(imports.iter().any(|i| i.is_dynamic));
}

#[test]
fn top_level_await_detected() {
    let src = "const data = await fetch('https://example.com');\n";
    assert!(detect_top_level_await(src));
}

#[test]
fn no_false_positive_in_function() {
    let src = "function f() {\n  const x = await p;\n}\n";
    assert!(!detect_top_level_await(src));
}

#[test]
fn quoted_specifier_rules() {
    assert_eq!(extract_quoted_specifier("import a from \"./a\""), Some(s("./a")));
    assert_eq!(extract_quoted_specifier("import 'has space';"), None);
    assert_eq!(extract_quoted_specifier("import x from `lib`"), Some(s("lib")));
    assert_eq!(extract_quoted_specifier("no quotes here"), None);
}

#[test]
fn comments_are_skipped() {
    let imports = extract_static_imports("// import x from './x';\n * import('y')\n");
    assert!(imports.is_empty());
    assert!(!detect_top_level_await("// await x\n"));
    assert!(detect_top_level_await("x = await y\r\n"));
}

#[test]
fn record_lifecycle() {
    let mut r = ModuleRecord::new(s("__bua_builtin__/fs"), s("bua:fs"), s("export const a = 1;"));
    assert!(r.is_builtin());
    assert!(matches!(r.status, ModuleStatus::Loaded));
    r.begin_link();
    r.finish_link();
    assert!(r.status.is_evaluatable());
    r.begin_eval();
    assert!(!r.status.is_terminal());
    r.finish_eval();
    assert!(r.status.is_terminal());
    r.fail(s("bad"));
    assert_eq!(r.status.failed_reason(), Some("bad"));
    assert!(!make_record("/a.js").is_builtin());
}

#[test]
fn all_builtins_registered() {
    let reg = BuiltinRegistry::new();
    for name in &["fs", "env", "trace", "agent", "tools", "time", "memory", "random"] {
        assert!(reg.get(name).is_some(), "missing builtin: bua:{name}");
    }
}

#[test]
fn builtin_source_is_valid_js() {
    let reg = BuiltinRegistry::new();
    for name in reg.names() {
        let src = reg.get(name).unwrap();
        assert!(src.contains("export"), "bua:{name} source doesn't contain exports");
    }
}

#[test]
fn unknown_builtin_is_absent() {
    let reg = BuiltinRegistry::new();
    assert!(reg.get("net").is_none());
    assert_eq!(reg.names().len(), 8);
}

#[test]
fn strips_import_type() {
    let src = r#"
import type { Foo } from './foo';
import { bar } from './bar';
const x = bar();
"#;
    let t = Transpiler::default();
    let out = t.transpile(src, "test.ts").unwrap();
    assert!(!out.code.contains("import type"));
    assert!(out.code.contains("import { bar }"));
}

#[test]
fn strips_interface() {
    let src = "interface Foo { x: number; }\nconst y = 1;\n";
    let t = Transpiler::default();
    let out = t.transpile(src, "test.ts").unwrap();
    assert!(!out.code.contains("interface"));
    assert!(out.code.contains("const y = 1;"));
}

#[test]
fn strip_keeps_line_count() {
    let out = strip_typescript_stub("type A = string;\n  declare const x: A;\nlet y = 2;");
    assert_eq!(out, "\n\nlet y = 2;\n");
    assert_eq!(strip_typescript_stub("type Foo;\n"), "type Foo;\n");
}

#[test]
fn needs_transpile_by_extension() {
    assert!(Transpiler::needs_transpile("/a/b.ts"));
    assert!(Transpiler::needs_transpile("x.tsx"));
    assert!(Transpiler::needs_transpile("x.mts"));
    assert!(!Transpiler::needs_transpile("x.js"));
    assert!(!Transpiler::needs_transpile("ts"));
}

#[test]
fn builtin_resolves() {
    let r = ModuleResolver::new(s("/tmp/root"));
    let ctx = ResolveContext { referrer: None, root: s("/tmp/root") };
    match r.plan("bua:fs", &ctx).unwrap() {
        ResolvePlan::Builtin(name) => assert_eq!(name, "fs"),
        ResolvePlan::Probe(_) => panic!("expected a builtin"),
    }
}

#[test]
fn bare_specifier_errors() {
    let r = ModuleResolver::new(s("/tmp/root"));
    let ctx = ResolveContext { referrer: None, root: s("/tmp/root") };
    let result = r.plan("lodash", &ctx);
    assert!(result.is_err());
    assert!(result.err().unwrap().message().contains("bare specifiers"));
}

#[test]
fn relative_specifier_is_probed_from_referrer() {
    let r = ModuleResolver::new(s("/root"));
    let ctx = ResolveContext { referrer: Some(s("/proj/src/main.ts")), root: s("/root") };
    match r.plan("./utils", &ctx).unwrap() {
        ResolvePlan::Probe(p) => assert_eq!(p, "/proj/src/./utils"),
        ResolvePlan::Builtin(_) => panic!("expected a probe"),
    }
    let c = ModuleResolver::probe_candidates("/proj/src/utils");
    assert_eq!(c[0], "/proj/src/utils");
    assert_eq!(c[1], "/proj/src/utils.ts");
    assert_eq!(c[6], "/proj/src/utils.jsx");
    let i = ModuleResolver::index_candidates("/proj/src/utils");
    assert_eq!(i, vec!["/proj/src/utils/index.ts", "/proj/src/utils/index.js", "/proj/src/utils/index.mts", "/proj/src/utils/index.mjs"]);
}

#[test]
fn loader_plans_and_caches() {
    let mut loader = ModuleLoader::new(s("/base"), Transpiler::default());
    match loader.resolve_plan("bua:time", None).unwrap() {
        LoadPlan::Resolved(p) => assert_eq!(p, "__bua_builtin__/time"),
        LoadPlan::Probe(_) => panic!("expected a builtin path"),
    }
    match loader.resolve_plan("./x.js", None).unwrap() {
        LoadPlan::Probe(p) => assert_eq!(p, "/base/./x.js"),
        LoadPlan::Resolved(_) => panic!("expected a probe"),
    }
    assert!(loader.resolve_plan("lodash", None).is_err());

    let m = loader.prepare("./hello.ts", "/base/hello.ts", s("type Foo = string;\nexport const x: Foo = 'hi';")).unwrap();
    assert!(m.was_transpiled);
    assert!(!m.source.contains("type Foo"));
    let js = loader.prepare("./hello.js", "/base/hello.js", s("export const x = 1;")).unwrap();
    assert!(!js.was_transpiled);

    loader.insert_cached(s("/base/hello.ts"), m, 100);
    assert_eq!(loader.cache_size(), 1);
    assert!(loader.cached("/base/hello.ts", 100).is_some());
    assert!(loader.cached("/base/hello.ts", 101).is_none());
    loader.insert_cached(s("/base/hello.ts"), js, 200);
    assert_eq!(loader.cache_size(), 1);
    assert!(!loader.cached("/base/hello.ts", 150).unwrap().was_transpiled);
    loader.invalidate_all();
    assert_eq!(loader.cache_size(), 0);
}
