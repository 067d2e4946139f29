//! The module resolver and loader.
//!
//! One load request walks the pipeline: resolve the import specifier against
//! its referrer, validate the resolved location against the active sandbox,
//! classify the module by its file extension, transpile when the kind calls
//! for it, and hand the engine a ready [`ModuleRecord`].  Each phase is a
//! function here with its exact contract; the host only reads the module
//! file between the phases, at the validated target.

use vstd::prelude::*;

use crate::context::ExecutionContext;
use crate::errors::RunError;
use crate::path::FsPath;
use crate::path::PathView;
use crate::path::spec_absolute;
use crate::path::spec_parse;
use crate::path::spec_resolve;
use crate::sandbox::PathProbe;
use crate::sandbox::ProbeView;
use crate::sandbox::spec_validate;

verus! {

/// How a module's source text reaches the engine.
#[derive(Clone, Copy, Debug, PartialEq, Eq, Structural)]
pub enum ModuleKind {
    /// Executable JavaScript.
    JavaScript,
    /// A JSON module.
    Json,
}

/// What a module's file extension says about it.
#[derive(Clone, Copy, Debug, PartialEq, Eq, Structural)]
pub enum ModuleClass {
    /// JavaScript served as it stands: `.js`, `.mjs`, `.cjs`.
    JsPlain,
    /// Source that must be transpiled first: `.jsx` and the TypeScript
    /// family `.ts`, `.mts`, `.cts`, `.d.ts`, `.d.mts`, `.d.cts`, `.tsx`.
    JsTranspile,
    /// A JSON module: `.json`.
    Json,
}

/// An executable module record, consumed once by the engine.
#[derive(Debug)]
pub struct ModuleRecord {
    /// The module's specifier.
    pub specifier: String,
    /// How the engine treats the source text.
    pub kind: ModuleKind,
    /// The executable source text.
    pub source_text: String,
}

/// The ASCII-lowercase code point of a character: letters fold, everything
/// else stands.
pub open spec fn spec_lower_code(c: char) -> int {
    if 65 <= c as u32 && c as u32 <= 90 {
        c as u32 + 32
    } else {
        c as u32 as int
    }
}

/// Two characters are equal up to ASCII case.
pub open spec fn spec_eq_nocase(a: char, b: char) -> bool {
    spec_lower_code(a) == spec_lower_code(b)
}

/// `s` ends with `suffix`, up to ASCII case.
pub open spec fn spec_ends_with_nocase(s: Seq<char>, suffix: Seq<char>) -> bool {
    s.len() >= suffix.len() && forall|j: int|
        0 <= j < suffix.len() ==> spec_eq_nocase(s[s.len() - suffix.len() + j], suffix[j])
}

/// The classification of a module file name by its extension, a total
/// function: any extension outside the supported set is `None`.  Extensions
/// match without regard to ASCII case, as the platform's media-type lookup
/// does; the `.d.ts`, `.d.mts` and `.d.cts` declaration forms fall under
/// the `.ts`, `.mts` and `.cts` suffixes they end in.
pub open spec fn spec_classify(name: Seq<char>) -> Option<ModuleClass> {
    if spec_ends_with_nocase(name, ".js"@) || spec_ends_with_nocase(name, ".mjs"@)
        || spec_ends_with_nocase(name, ".cjs"@) {
        Some(ModuleClass::JsPlain)
    } else if spec_ends_with_nocase(name, ".jsx"@) || spec_ends_with_nocase(name, ".ts"@)
        || spec_ends_with_nocase(name, ".mts"@) || spec_ends_with_nocase(name, ".cts"@)
        || spec_ends_with_nocase(name, ".tsx"@) {
        Some(ModuleClass::JsTranspile)
    } else if spec_ends_with_nocase(name, ".json"@) {
        Some(ModuleClass::Json)
    } else {
        None
    }
}

/// Whether two characters are equal up to ASCII case.
fn chars_eq_nocase(a: char, b: char) -> (r: bool)
    ensures
        r == spec_eq_nocase(a, b),
{
    let au = a as u32;
    let bu = b as u32;
    let la = if 65 <= au && au <= 90 {
        au + 32
    } else {
        au
    };
    let lb = if 65 <= bu && bu <= 90 {
        bu + 32
    } else {
        bu
    };
    la == lb
}

/// Whether `s` ends with `suffix`, character by character, up to ASCII
/// case.
fn str_ends_with_nocase(s: &str, suffix: &str) -> (r: bool)
    ensures
        r == spec_ends_with_nocase(s@, suffix@),
{
    let n = s.unicode_len();
    let m = suffix.unicode_len();
    if m > n {
        return false;
    }
    let mut k: usize = 0;
    while k < m
        invariant
            k <= m <= n,
            n == s@.len(),
            m == suffix@.len(),
            forall|j: int| 0 <= j < k ==> spec_eq_nocase(s@[n - m + j], suffix@[j]),
        decreases m - k,
    {
        if !chars_eq_nocase(s.get_char(n - m + k), suffix.get_char(k)) {
            return false;
        }
        k = k + 1;
    }
    true
}

/// Whether `s` begins with `prefix`, character by character.
fn str_starts_with(s: &str, prefix: &str) -> (r: bool)
    ensures
        r == (s@.len() >= prefix@.len() && s@.subrange(0, prefix@.len() as int) == prefix@),
{
    let n = s.unicode_len();
    let m = prefix.unicode_len();
    if m > n {
        return false;
    }
    let mut k: usize = 0;
    while k < m
        invariant
            k <= m <= n,
            n == s@.len(),
            m == prefix@.len(),
            forall|j: int| 0 <= j < k ==> s@[j] == prefix@[j],
        decreases m - k,
    {
        if s.get_char(k) != prefix.get_char(k) {
            proof {
                if s@.subrange(0, m as int) == prefix@ {
                    assert(s@.subrange(0, m as int)[k as int] == prefix@[k as int]);
                    assert(s@.subrange(0, m as int)[k as int] == s@[k as int]);
                }
            }
            return false;
        }
        k = k + 1;
    }
    proof {
        assert(s@.subrange(0, m as int) =~= prefix@);
    }
    true
}

/// Whether two strings hold the same characters.
fn str_equal(a: &str, b: &str) -> (r: bool)
    ensures
        r == (a@ == b@),
{
    let n = a.unicode_len();
    if n != b.unicode_len() {
        return false;
    }
    let mut k: usize = 0;
    while k < n
        invariant
            k <= n,
            n == a@.len() == b@.len(),
            forall|j: int| 0 <= j < k ==> a@[j] == b@[j],
        decreases n - k,
    {
        if a.get_char(k) != b.get_char(k) {
            return false;
        }
        k = k + 1;
    }
    proof {
        assert(a@ =~= b@);
    }
    true
}

/// Classify a module file name by its extension.
pub fn classify_file_name(name: &str) -> (r: Option<ModuleClass>)
    ensures
        r == spec_classify(name@),
{
    if str_ends_with_nocase(name, ".js") || str_ends_with_nocase(name, ".mjs")
        || str_ends_with_nocase(name, ".cjs") {
        Some(ModuleClass::JsPlain)
    } else if str_ends_with_nocase(name, ".jsx") || str_ends_with_nocase(name, ".ts")
        || str_ends_with_nocase(name, ".mts") || str_ends_with_nocase(name, ".cts")
        || str_ends_with_nocase(name, ".tsx") {
        Some(ModuleClass::JsTranspile)
    } else if str_ends_with_nocase(name, ".json") {
        Some(ModuleClass::Json)
    } else {
        None
    }
}

/// `s` begins with the `file://` scheme.
pub open spec fn spec_file_scheme(s: Seq<char>) -> bool {
    s.len() >= 7 && s.subrange(0, 7) == "file://"@
}

/// Standard module resolution: a `file://` URL specifier passes through as
/// the location it names, a path-absolute specifier as given; a relative
/// specifier (starting with `.`) is resolved against the referrer's
/// directory; anything else — a bare or empty specifier, or a URL scheme
/// this file-based loader cannot serve — is malformed.
pub open spec fn spec_resolve_import(specifier: Seq<char>, referrer: PathView) -> Result<
    PathView,
    RunError,
> {
    if spec_file_scheme(specifier) {
        Ok(spec_parse(specifier.skip(7)))
    } else if spec_absolute(specifier) {
        Ok(spec_parse(specifier))
    } else if specifier.len() > 0 && specifier[0] == '.' {
        let dir = PathView {
            absolute: referrer.absolute,
            parts: if referrer.parts.len() > 0 {
                referrer.parts.drop_last()
            } else {
                referrer.parts
            },
        };
        Ok(spec_resolve(dir, spec_parse(specifier)))
    } else {
        Err(RunError::UnresolvedSpecifier)
    }
}

/// Resolve an import specifier against the location of the importing
/// module.
pub fn resolve_import(specifier: &str, referrer: &FsPath) -> (r: Result<FsPath, RunError>)
    ensures
        match r {
            Ok(p) => spec_resolve_import(specifier@, referrer@) == Ok::<PathView, RunError>(p@),
            Err(e) => spec_resolve_import(specifier@, referrer@) == Err::<PathView, RunError>(e),
        },
{
    let n = specifier.unicode_len();
    if str_starts_with(specifier, "file://") {
        proof {
            reveal_strlit("file://");
            assert("file://"@.len() == 7);
        }
        let rest = specifier.substring_char(7, n);
        proof {
            assert(rest@ =~= specifier@.skip(7));
        }
        Ok(FsPath::parse(rest))
    } else if n > 0 && specifier.get_char(0) == '/' {
        Ok(FsPath::parse(specifier))
    } else if n > 0 && specifier.get_char(0) == '.' {
        let parsed = FsPath::parse(specifier);
        let dir = match referrer.parent_path() {
            Option::Some(d) => d,
            Option::None => referrer.duplicate(),
        };
        Ok(dir.join(&parsed))
    } else {
        Err(RunError::UnresolvedSpecifier)
    }
}

/// The admission and classification of one module load: with a sandbox active
/// the resolved location must validate — an escape is reported as
/// `ModuleOutsideSandbox`, while a canonicalization failure keeps its own
/// error.  The host then reads the validated target, and the module's
/// class is judged by the requested location's file name.
pub open spec fn spec_prepare_load(
    ctx: ExecutionContext,
    location: PathView,
    probe: ProbeView,
) -> Result<(PathView, ModuleClass), RunError> {
    let admitted = match ctx.spec_sandbox_root() {
        Option::None => Ok(location),
        Option::Some(root) => match spec_validate(root, location, probe) {
            Ok(target) => Ok(target),
            Err(RunError::Io(kind)) => Err(RunError::Io(kind)),
            Err(_) => Err(RunError::ModuleOutsideSandbox),
        },
    };
    match admitted {
        Err(e) => Err(e),
        Ok(target) => if location.parts.len() == 0 {
            Err(RunError::UnsupportedModuleKind)
        } else {
            match spec_classify(location.parts.last()) {
                Some(class) => Ok((target, class)),
                None => Err(RunError::UnsupportedModuleKind),
            }
        },
    }
}

/// Validate and classify a resolved module location.  On success the host
/// reads the returned target and hands the text to
/// [`finish_module_load`].
pub fn prepare_module_load(ctx: &ExecutionContext, location: &FsPath, probe: &PathProbe) -> (r:
    Result<(FsPath, ModuleClass), RunError>)
    ensures
        match r {
            Ok(p) => spec_prepare_load(*ctx, location@, probe@) == Ok::<
                (PathView, ModuleClass),
                RunError,
            >((p.0@, p.1)),
            Err(e) => spec_prepare_load(*ctx, location@, probe@) == Err::<
                (PathView, ModuleClass),
                RunError,
            >(e),
        },
{
    let target = match ctx.sandbox() {
        Option::None => location.duplicate(),
        Option::Some(config) => match config.validate_path(location, probe) {
            Ok(validated) => validated.into_path(),
            Err(RunError::Io(kind)) => {
                return Err(RunError::Io(kind));
            },
            Err(_) => {
                return Err(RunError::ModuleOutsideSandbox);
            },
        },
    };
    match location.file_name() {
        Option::None => Err(RunError::UnsupportedModuleKind),
        Option::Some(name) => match classify_file_name(name.as_str()) {
            Some(class) => Ok((target, class)),
            None => Err(RunError::UnsupportedModuleKind),
        },
    }
}

/// The source text without its leading byte-order marks, which an editor
/// may have saved in front of the first real character.
pub open spec fn spec_strip_bom(s: Seq<char>) -> Seq<char>
    decreases s.len(),
{
    if s.len() > 0 && s[0] == '\u{FEFF}' {
        spec_strip_bom(s.skip(1))
    } else {
        s
    }
}

/// Strip the leading byte-order marks off a source text.
fn strip_bom(source: &str) -> (r: String)
    ensures
        r@ == spec_strip_bom(source@),
        r@.len() == 0 || r@[0] != '\u{FEFF}',
{
    let n = source.unicode_len();
    let mut i: usize = 0;
    proof {
        assert(source@.skip(0) =~= source@);
    }
    while i < n && source.get_char(i) == '\u{FEFF}'
        invariant
            i <= n,
            n == source@.len(),
            spec_strip_bom(source@) == spec_strip_bom(source@.skip(i as int)),
        decreases n - i,
    {
        proof {
            assert(source@.skip(i as int)[0] == source@[i as int]);
            assert(source@.skip(i as int).skip(1) =~= source@.skip((i + 1) as int));
        }
        i = i + 1;
    }
    let rest = source.substring_char(i, n);
    proof {
        assert(rest@ =~= source@.skip(i as int));
        if i < n {
            assert(source@.skip(i as int)[0] == source@[i as int]);
        }
    }
    rest.to_owned()
}

/// What the external transpiler produces for a given source text and file
/// name: the transpiled JavaScript, or the syntax diagnostic.  The result
/// depends on the source and the media type derived from the file name
/// alone.
pub uninterp spec fn transpile_outcome(source: Seq<char>, file_name: Seq<char>) -> Result<
    Seq<char>,
    Seq<char>,
>;

/// Relies on deno_ast's `parse_module` and `ParsedSource::transpile` (with
/// default options and a fixed internal specifier): together a pure
/// function of the source text and the media type `MediaType::from_path`
/// derives from the file name, yielding transpiled JavaScript or a parse
/// diagnostic.  `parse_module` refuses (in debug builds, by panicking) a
/// text that still starts with a byte-order mark, so such a text is
/// excluded here and stripped by the caller first.
#[verifier::external_body]
fn transpile_call(source: &str, file_name: &str) -> (r: Result<String, String>)
    requires
        source@.len() == 0 || source@[0] != '\u{FEFF}',
    ensures
        match r {
            Ok(text) => transpile_outcome(source@, file_name@) == Ok::<Seq<char>, Seq<char>>(
                text@,
            ),
            Err(msg) => transpile_outcome(source@, file_name@) == Err::<Seq<char>, Seq<char>>(
                msg@,
            ),
        },
{
    let params = deno_ast::ParseParams {
        specifier: deno_ast::ModuleSpecifier::parse("file:///module").unwrap(),
        text: source.into(),
        media_type: deno_ast::MediaType::from_path(std::path::Path::new(file_name)),
        capture_tokens: false,
        scope_analysis: false,
        maybe_syntax: None,
    };
    let parsed = deno_ast::parse_module(params).map_err(|e| e.to_string())?;
    parsed.transpile(&Default::default(), &Default::default(), &Default::default())
        .map(|emitted| emitted.into_source().text)
        .map_err(|e| e.to_string())
}

/// Turn classified source text into the executable module record: plain
/// JavaScript and JSON pass through as they stand; a transpiled kind has
/// its leading byte-order marks stripped (the transpiler refuses them) and
/// goes through the external transpiler, whose diagnostic surfaces as a
/// `SyntaxError`.
pub fn finish_module_load(
    specifier: String,
    class: ModuleClass,
    file_name: &str,
    source: String,
) -> (r: Result<ModuleRecord, RunError>)
    ensures
        match r {
            Ok(record) => record.specifier@ == specifier@ && match class {
                ModuleClass::JsPlain => record.kind == ModuleKind::JavaScript
                    && record.source_text@ == source@,
                ModuleClass::Json => record.kind == ModuleKind::Json && record.source_text@
                    == source@,
                ModuleClass::JsTranspile => record.kind == ModuleKind::JavaScript
                    && transpile_outcome(spec_strip_bom(source@), file_name@) == Ok::<
                    Seq<char>,
                    Seq<char>,
                >(record.source_text@),
            },
            Err(e) => match e {
                RunError::SyntaxError(msg) => class == ModuleClass::JsTranspile
                    && transpile_outcome(spec_strip_bom(source@), file_name@) == Err::<
                    Seq<char>,
                    Seq<char>,
                >(msg@),
                _ => false,
            },
        },
{
    match class {
        ModuleClass::JsPlain => Ok(
            ModuleRecord { specifier, kind: ModuleKind::JavaScript, source_text: source },
        ),
        ModuleClass::Json => Ok(
            ModuleRecord { specifier, kind: ModuleKind::Json, source_text: source },
        ),
        ModuleClass::JsTranspile => {
            let stripped = strip_bom(source.as_str());
            match transpile_call(stripped.as_str(), file_name) {
                Ok(text) => Ok(
                    ModuleRecord { specifier, kind: ModuleKind::JavaScript, source_text: text },
                ),
                Err(msg) => Err(RunError::SyntaxError(msg)),
            }
        },
    }
}

/// The placeholder specifier that stands for the entry module when a run is
/// started from an inline source string.
pub open spec fn spec_string_entry_specifier() -> Seq<char> {
    "data:text/javascript,code.js"@
}

/// The placeholder specifier of a string-mode entry module.
pub fn string_entry_specifier() -> (r: String)
    ensures
        r@ == spec_string_entry_specifier(),
{
    String::from_str("data:text/javascript,code.js")
}

/// A module specifier after resolution in string mode: the entry itself, or
/// a location on disk.
pub enum ResolvedModule {
    /// The run's own entry module.
    Entry,
    /// A location on disk.
    Location(FsPath),
}

/// The loader of a run started from an inline source string.  It serves the
/// entry's own source under the placeholder specifier and nothing else.
pub struct StringModuleLoader {
    code: String,
    specifier: String,
}

impl StringModuleLoader {
    /// The inline source of the entry module.
    pub closed spec fn spec_code(&self) -> Seq<char> {
        self.code@
    }

    /// The placeholder specifier the entry answers to.
    pub closed spec fn spec_specifier(&self) -> Seq<char> {
        self.specifier@
    }

    /// A loader serving `code` under the placeholder `specifier`.
    pub fn new(code: String, specifier: String) -> (r: StringModuleLoader)
        ensures
            r.spec_code() == code@,
            r.spec_specifier() == specifier@,
    {
        StringModuleLoader { code, specifier }
    }

    /// Resolve a specifier in string mode: the placeholder resolves to the
    /// entry itself, everything else follows standard resolution.
    pub fn resolve(&self, specifier: &str, referrer: &FsPath) -> (r: Result<
        ResolvedModule,
        RunError,
    >)
        ensures
            specifier@ == self.spec_specifier() ==> (r matches Ok(m) && m is Entry),
            specifier@ != self.spec_specifier() ==> match r {
                Ok(m) => m matches ResolvedModule::Location(p) && spec_resolve_import(
                    specifier@,
                    referrer@,
                ) == Ok::<PathView, RunError>(p@),
                Err(e) => spec_resolve_import(specifier@, referrer@) == Err::<PathView, RunError>(
                    e,
                ),
            },
    {
        if str_equal(specifier, self.specifier.as_str()) {
            Ok(ResolvedModule::Entry)
        } else {
            match resolve_import(specifier, referrer) {
                Ok(p) => Ok(ResolvedModule::Location(p)),
                Err(e) => Err(e),
            }
        }
    }

    /// Load a resolved module in string mode: only the entry module itself
    /// is available — any other location is beyond what an inline run can
    /// import.
    pub fn load(&self, resolved: &ResolvedModule) -> (r: Result<ModuleRecord, RunError>)
        ensures
            match resolved {
                ResolvedModule::Entry => r matches Ok(record) && record.specifier@
                    == self.spec_specifier() && record.kind == ModuleKind::JavaScript
                    && record.source_text@ == self.spec_code(),
                ResolvedModule::Location(_) => r matches Err(e) && e
                    is UnresolvedSpecifier,
            },
    {
        match resolved {
            ResolvedModule::Entry => Ok(
                ModuleRecord {
                    specifier: self.specifier.clone(),
                    kind: ModuleKind::JavaScript,
                    source_text: self.code.clone(),
                },
            ),
            ResolvedModule::Location(_) => Err(RunError::UnresolvedSpecifier),
        }
    }
}

} // verus!
