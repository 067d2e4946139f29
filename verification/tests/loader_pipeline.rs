use runjs::context::ExecutionContext;
use runjs::errors::RunError;
use runjs::loader::classify_file_name;
use runjs::loader::finish_module_load;
use runjs::loader::prepare_module_load;
use runjs::loader::resolve_import;
use runjs::loader::string_entry_specifier;
use runjs::loader::ModuleClass;
use runjs::loader::ModuleKind;
use runjs::loader::ResolvedModule;
use runjs::loader::StringModuleLoader;
use runjs::path::FsPath;
use runjs::sandbox::PathProbe;
use runjs::sandbox::SandboxConfig;

#[test]
fn classification_by_extension() {
    assert_eq!(classify_file_name("main.js"), Some(ModuleClass::JsPlain));
    assert_eq!(classify_file_name("main.mjs"), Some(ModuleClass::JsPlain));
    assert_eq!(classify_file_name("main.cjs"), Some(ModuleClass::JsPlain));
    assert_eq!(classify_file_name("main.jsx"), Some(ModuleClass::JsTranspile));
    assert_eq!(classify_file_name("main.ts"), Some(ModuleClass::JsTranspile));
    assert_eq!(classify_file_name("main.mts"), Some(ModuleClass::JsTranspile));
    assert_eq!(classify_file_name("main.cts"), Some(ModuleClass::JsTranspile));
    assert_eq!(classify_file_name("main.d.ts"), Some(ModuleClass::JsTranspile));
    assert_eq!(classify_file_name("main.d.mts"), Some(ModuleClass::JsTranspile));
    assert_eq!(classify_file_name("main.d.cts"), Some(ModuleClass::JsTranspile));
    assert_eq!(classify_file_name("main.tsx"), Some(ModuleClass::JsTranspile));
    assert_eq!(classify_file_name("data.json"), Some(ModuleClass::Json));
    assert_eq!(classify_file_name("module.wasm"), None);
    assert_eq!(classify_file_name("README"), None);
}

#[test]
fn resolve_relative_specifier_against_referrer_directory() {
    let referrer = FsPath::parse("/sandbox/main.js");
    let resolved = resolve_import("./lib/util.js", &referrer).expect("relative");
    assert_eq!(resolved.render(), "/sandbox/lib/util.js");
}

#[test]
fn resolve_parent_specifier_keeps_dot_dot() {
    let referrer = FsPath::parse("/sandbox/sub/main.js");
    let resolved = resolve_import("../shared.js", &referrer).expect("relative");
    assert_eq!(resolved.render(), "/sandbox/sub/../shared.js");
}

#[test]
fn resolve_absolute_specifier_passes_through() {
    let referrer = FsPath::parse("/sandbox/main.js");
    let resolved = resolve_import("/sandbox/other.js", &referrer).expect("absolute");
    assert_eq!(resolved.render(), "/sandbox/other.js");
}

#[test]
fn resolve_bare_specifier_is_unresolved() {
    let referrer = FsPath::parse("/sandbox/main.js");
    let err = resolve_import("lodash", &referrer).expect_err("bare");
    assert!(matches!(err, RunError::UnresolvedSpecifier));
    let err = resolve_import("", &referrer).expect_err("empty");
    assert!(matches!(err, RunError::UnresolvedSpecifier));
}

#[test]
fn prepare_load_without_sandbox_passes_location_through() {
    let ctx = ExecutionContext::inactive();
    let location = FsPath::parse("/anywhere/main.ts");
    let probe = PathProbe::Exists(Ok(FsPath::parse("/anywhere/main.ts")));
    let (target, class) = prepare_module_load(&ctx, &location, &probe).expect("no sandbox");
    assert_eq!(target.render(), "/anywhere/main.ts");
    assert_eq!(class, ModuleClass::JsTranspile);
}

#[test]
fn prepare_load_rejects_module_outside_sandbox() {
    let ctx = ExecutionContext::with_sandbox(SandboxConfig::new(FsPath::parse("/sandbox")));
    let location = FsPath::parse("/outside/evil.js");
    let probe = PathProbe::Exists(Ok(FsPath::parse("/outside/evil.js")));
    let err = prepare_module_load(&ctx, &location, &probe).expect_err("outside");
    assert!(matches!(err, RunError::ModuleOutsideSandbox));
}

#[test]
fn prepare_load_validates_imported_module_like_a_file_op() {
    let ctx = ExecutionContext::with_sandbox(SandboxConfig::new(FsPath::parse("/sandbox")));
    let location = FsPath::parse("/sandbox/lib/util.js");
    let probe = PathProbe::Exists(Ok(FsPath::parse("/sandbox/lib/util.js")));
    let (target, class) = prepare_module_load(&ctx, &location, &probe).expect("inside");
    assert_eq!(target.render(), "/sandbox/lib/util.js");
    assert_eq!(class, ModuleClass::JsPlain);
}

#[test]
fn prepare_load_rejects_unknown_extension() {
    let ctx = ExecutionContext::inactive();
    let location = FsPath::parse("/anywhere/picture.png");
    let probe = PathProbe::Exists(Ok(FsPath::parse("/anywhere/picture.png")));
    let err = prepare_module_load(&ctx, &location, &probe).expect_err("unknown kind");
    assert!(matches!(err, RunError::UnsupportedModuleKind));
}

#[test]
fn finish_load_passes_plain_javascript_through() {
    let source = "console.log('Hello from test!');";
    let record = finish_module_load(
        String::from("/sandbox/main.js"),
        ModuleClass::JsPlain,
        "main.js",
        String::from(source),
    )
    .expect("plain");
    assert_eq!(record.kind, ModuleKind::JavaScript);
    assert_eq!(record.source_text, source);
    assert_eq!(record.specifier, "/sandbox/main.js");
}

#[test]
fn finish_load_passes_json_through() {
    let source = "{\"answer\": 42}";
    let record = finish_module_load(
        String::from("/sandbox/data.json"),
        ModuleClass::Json,
        "data.json",
        String::from(source),
    )
    .expect("json");
    assert_eq!(record.kind, ModuleKind::Json);
    assert_eq!(record.source_text, source);
}

#[test]
fn finish_load_transpiles_typescript() {
    // A `.ts` entry with a type annotation: the load succeeds and the
    // transpiled source no longer carries the annotation, so it executes
    // as the equivalent plain JavaScript would.
    let source = "const x: number = 42;\nconsole.log(x * 2);\n";
    let record = finish_module_load(
        String::from("/sandbox/main.ts"),
        ModuleClass::JsTranspile,
        "main.ts",
        String::from(source),
    )
    .expect("valid typescript");
    assert_eq!(record.kind, ModuleKind::JavaScript);
    assert_ne!(record.source_text, source);
    assert!(!record.source_text.contains(": number"));
    assert!(record.source_text.contains("console.log"));
}

#[test]
fn finish_load_reports_syntax_error() {
    let source = "this is not valid javascript;";
    let err = finish_module_load(
        String::from("/sandbox/broken.ts"),
        ModuleClass::JsTranspile,
        "broken.ts",
        String::from(source),
    )
    .expect_err("syntax error");
    assert!(matches!(err, RunError::SyntaxError(_)));
}

#[test]
fn string_loader_serves_only_the_entry() {
    let code = "const x = 42;\nconsole.log(x * 2);\n";
    let loader = StringModuleLoader::new(String::from(code), string_entry_specifier());

    let entry = loader
        .resolve(&string_entry_specifier(), &FsPath::parse("/"))
        .expect("the entry resolves");
    assert!(matches!(entry, ResolvedModule::Entry));

    let record = loader.load(&entry).expect("the entry loads");
    assert_eq!(record.kind, ModuleKind::JavaScript);
    assert_eq!(record.source_text, code);
    assert_eq!(record.specifier, "data:text/javascript,code.js");

    let other = loader
        .resolve("./helper.js", &FsPath::parse("/sandbox/main.js"))
        .expect("resolution itself succeeds");
    match &other {
        ResolvedModule::Location(p) => assert_eq!(p.render(), "/sandbox/helper.js"),
        ResolvedModule::Entry => panic!("a relative import is not the entry"),
    }
    let err = loader.load(&other).expect_err("only the entry is served");
    assert!(matches!(err, RunError::UnresolvedSpecifier));
}

#[test]
fn classification_ignores_ascii_case() {
    assert_eq!(classify_file_name("MAIN.TS"), Some(ModuleClass::JsTranspile));
    assert_eq!(classify_file_name("Main.Jsx"), Some(ModuleClass::JsTranspile));
    assert_eq!(classify_file_name("DATA.JSON"), Some(ModuleClass::Json));
    assert_eq!(classify_file_name("util.JS"), Some(ModuleClass::JsPlain));
    assert_eq!(classify_file_name("PICTURE.PNG"), None);
}

#[test]
fn resolve_file_url_specifier_passes_through() {
    let referrer = FsPath::parse("/sandbox/main.js");
    let resolved = resolve_import("file:///lib/util.js", &referrer).expect("file URL");
    assert_eq!(resolved.render(), "/lib/util.js");
}

#[test]
fn resolve_non_file_scheme_is_unresolved() {
    let referrer = FsPath::parse("/sandbox/main.js");
    let err = resolve_import("https://example.com/m.js", &referrer).expect_err("no such scheme");
    assert!(matches!(err, RunError::UnresolvedSpecifier));
}

#[test]
fn finish_load_strips_byte_order_mark() {
    // A `.ts` file saved with a UTF-8 byte-order mark loads like the same
    // file without one.
    let bare = "const x: number = 7;\nconsole.log(x);\n";
    let with_bom = format!("\u{FEFF}{bare}");
    let plain = finish_module_load(
        String::from("/sandbox/a.ts"),
        ModuleClass::JsTranspile,
        "a.ts",
        String::from(bare),
    )
    .expect("valid typescript");
    let marked = finish_module_load(
        String::from("/sandbox/a.ts"),
        ModuleClass::JsTranspile,
        "a.ts",
        with_bom,
    )
    .expect("the mark is stripped");
    assert_eq!(plain.source_text, marked.source_text);
}
