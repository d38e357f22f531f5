//! Module records, and the line-oriented scan of module source for static
//! imports and top-level `await`.
use vstd::prelude::*;

use crate::text::{
    chars_of, contains_text, has_infix, has_prefix, slice_chars, starts_with, trim, trim_chars,
};

verus! {

/// Lifecycle of a module in the graph.
#[derive(Debug)]
pub enum ModuleStatus {
    /// Specifier resolved but not yet loaded.
    Unloaded,
    /// Source loaded, not yet parsed for imports.
    Loaded,
    /// Imports extracted; currently resolving dependencies.
    Linking,
    /// All dependencies resolved; ready to evaluate.
    Linked,
    /// Evaluation started.
    Evaluating,
    /// Evaluation complete.
    Evaluated,
    /// Failed at some stage.
    Failed(String),
}

impl ModuleStatus {
    /// Evaluated and failed modules are done.
    pub fn is_terminal(&self) -> (r: bool)
        ensures
            r == (*self is Evaluated || *self is Failed),
    {
        match self {
            ModuleStatus::Evaluated => true,
            ModuleStatus::Failed(_) => true,
            _ => false,
        }
    }

    /// Only a linked module can be evaluated.
    pub fn is_evaluatable(&self) -> (r: bool)
        ensures
            r == (*self is Linked),
    {
        match self {
            ModuleStatus::Linked => true,
            _ => false,
        }
    }

    /// The reason of a failure, if the module failed.
    pub fn failed_reason(&self) -> (r: Option<&str>)
        ensures
            match *self {
                ModuleStatus::Failed(reason) => r matches Some(x) && x@ == reason@,
                _ => r is None,
            },
    {
        match self {
            ModuleStatus::Failed(reason) => Some(reason.as_str()),
            _ => None,
        }
    }
}

/// A static import declaration extracted from module source.
#[derive(Debug)]
pub struct ImportDecl {
    /// The specifier as written: `"./foo"`, `"bua:fs"`, etc.
    pub specifier: String,
    /// True if this is a dynamic `import()` call (not statically analyzable).
    pub is_dynamic: bool,
    /// True if `import type` (TypeScript type-only, no runtime effect).
    pub is_type_only: bool,
}

/// The mathematical value of an import declaration.
pub struct ImportView {
    pub specifier: Seq<char>,
    pub is_dynamic: bool,
    pub is_type_only: bool,
}

impl View for ImportDecl {
    type V = ImportView;

    open spec fn view(&self) -> ImportView {
        ImportView {
            specifier: self.specifier@,
            is_dynamic: self.is_dynamic,
            is_type_only: self.is_type_only,
        }
    }
}

/// The views of a list of import declarations.
pub open spec fn imports_view(v: Seq<ImportDecl>) -> Seq<ImportView> {
    v.map_values(|d: ImportDecl| d@)
}

// ---------------------------------------------------------------------------
// Lines
// ---------------------------------------------------------------------------

/// The length of the first line of `t`: the index of its first `'\n'`, or
/// its length when it has none.
pub open spec fn first_line_len(t: Seq<char>) -> nat
    decreases t.len(),
{
    if t.len() == 0 {
        0
    } else if t[0] == '\n' {
        0
    } else {
        1 + first_line_len(t.drop_first())
    }
}

/// `x` without one trailing `'\r'`.
pub open spec fn strip_cr(x: Seq<char>) -> Seq<char> {
    if x.len() > 0 && x.last() == '\r' {
        x.drop_last()
    } else {
        x
    }
}

/// The first line of `t` as `str::lines` yields it: up to the first `'\n'`,
/// without the `"\n"` or `"\r\n"` that ends it.
pub open spec fn line_text(t: Seq<char>) -> Seq<char> {
    let e = first_line_len(t);
    if e < t.len() {
        strip_cr(t.take(e as int))
    } else {
        t
    }
}

/// What follows the first line of `t`.
pub open spec fn line_rest(t: Seq<char>) -> Seq<char> {
    let e = first_line_len(t);
    if e < t.len() {
        t.skip(e as int + 1)
    } else {
        Seq::empty()
    }
}

proof fn lemma_first_line_len(t: Seq<char>, m: int)
    requires
        0 <= m <= t.len(),
        forall|k: int| 0 <= k < m ==> t[k] != '\n',
        m == t.len() || t[m] == '\n',
    ensures
        first_line_len(t) == m,
    decreases m,
{
    if m > 0 {
        lemma_first_line_len(t.drop_first(), m - 1);
    }
}

/// The first line of `src[pos..]` and the position just past it.
pub(crate) fn next_line(src: &[char], pos: usize) -> (r: (Vec<char>, usize))
    requires
        pos < src@.len(),
    ensures
        r.0@ == line_text(src@.skip(pos as int)),
        pos < r.1 <= src@.len(),
        src@.skip(r.1 as int) == line_rest(src@.skip(pos as int)),
{
    let ghost t = src@.skip(pos as int);
    let mut j: usize = pos;
    while j < src.len() && src[j] != '\n'
        invariant
            pos <= j <= src@.len(),
            forall|k: int| pos <= k < j ==> src@[k] != '\n',
        decreases src.len() - j,
    {
        j = j + 1;
    }
    proof {
        lemma_first_line_len(t, j - pos);
    }
    if j < src.len() {
        let mut end = j;
        if end > pos && src[end - 1] == '\r' {
            end = end - 1;
        }
        let line = slice_chars(src, pos, end);
        proof {
            assert(t.take(j - pos) =~= src@.subrange(pos as int, j as int));
            assert(src@.skip(j + 1) =~= t.skip(j - pos + 1));
            if end < j {
                assert(strip_cr(t.take(j - pos)) =~= src@.subrange(pos as int, end as int));
            } else {
                assert(strip_cr(t.take(j - pos)) =~= src@.subrange(pos as int, end as int));
            }
        }
        (line, j + 1)
    } else {
        let line = slice_chars(src, pos, j);
        assert(t =~= src@.subrange(pos as int, j as int));
        assert(src@.skip(j as int) =~= Seq::<char>::empty());
        (line, j)
    }
}

// ---------------------------------------------------------------------------
// Static import extraction
// ---------------------------------------------------------------------------

/// The index of the last `c` in `t`.
pub open spec fn last_index(t: Seq<char>, c: char) -> Option<int>
    decreases t.len(),
{
    if t.len() == 0 {
        None
    } else if t.last() == c {
        Some(t.len() - 1)
    } else {
        last_index(t.drop_last(), c)
    }
}

proof fn lemma_last_index(t: Seq<char>, c: char, m: int)
    requires
        0 <= m <= t.len(),
        forall|k: int| m <= k < t.len() ==> t[k] != c,
        m == 0 || t[m - 1] == c,
    ensures
        last_index(t, c) == (if m == 0 {
            None::<int>
        } else {
            Some(m - 1)
        }),
    decreases t.len() - m,
{
    if m < t.len() {
        lemma_last_index(t.drop_last(), c, m);
    }
}

/// The index of the last `c` in `v[..hi]`.
fn rfind_char(v: &[char], hi: usize, c: char) -> (r: Option<usize>)
    requires
        hi <= v@.len(),
    ensures
        match r {
            Some(i) => i < hi && last_index(v@.take(hi as int), c) == Some(i as int),
            None => last_index(v@.take(hi as int), c) is None,
        },
{
    let ghost t = v@.take(hi as int);
    let mut m: usize = hi;
    while m > 0 && v[m - 1] != c
        invariant
            m <= hi <= v@.len(),
            forall|k: int| m <= k < hi ==> v@[k] != c,
        decreases m,
    {
        m = m - 1;
    }
    proof {
        lemma_last_index(t, c, m as int);
    }
    if m == 0 {
        None
    } else {
        Some(m - 1)
    }
}

/// Whether a quoted text is taken as a module specifier: not empty, and
/// relative, absolute, a `bua:` builtin, or free of spaces.
pub open spec fn specifier_allowed(spec: Seq<char>) -> bool {
    spec.len() > 0 && (has_prefix(spec, "."@) || has_prefix(spec, "/"@) || has_prefix(
        spec,
        "bua:"@,
    ) || !has_infix(spec, " "@))
}

/// The text between the last two `q` quotes of `line`, when it is taken as
/// a specifier.
pub open spec fn quoted_with(line: Seq<char>, q: char) -> Option<Seq<char>> {
    match last_index(line, q) {
        None => None,
        Some(end) => match last_index(line.take(end), q) {
            None => None,
            Some(start) => {
                let spec = line.subrange(start + 1, end);
                if specifier_allowed(spec) {
                    Some(spec)
                } else {
                    None
                }
            },
        },
    }
}

/// The quoted module specifier of an import or export line: tried with
/// double quotes, then single quotes, then backticks.
pub open spec fn quoted_specifier(line: Seq<char>) -> Option<Seq<char>> {
    match quoted_with(line, '"') {
        Some(x) => Some(x),
        None => match quoted_with(line, '\'') {
            Some(x) => Some(x),
            None => quoted_with(line, '`'),
        },
    }
}

fn quoted_with_exec(line: &[char], q: char) -> (r: Option<Vec<char>>)
    ensures
        match r {
            Some(x) => quoted_with(line@, q) == Some(x@),
            None => quoted_with(line@, q) is None,
        },
{
    assert(line@.take(line@.len() as int) =~= line@);
    match rfind_char(line, line.len(), q) {
        None => None,
        Some(end) => {
            assert(line@.take(end as int).take(end as int) =~= line@.take(end as int));
            match rfind_char(line, end, q) {
                None => None,
                Some(start) => {
                    let spec = slice_chars(line, start + 1, end);
                    let ok = spec.len() > 0 && (starts_with(spec.as_slice(), ".") || starts_with(
                        spec.as_slice(),
                        "/",
                    ) || starts_with(spec.as_slice(), "bua:") || !contains_text(
                        spec.as_slice(),
                        " ",
                    ));
                    if ok {
                        Some(spec)
                    } else {
                        None
                    }
                },
            }
        },
    }
}

/// The quoted module specifier of an import or export line (see
/// [`quoted_specifier`]).
pub fn extract_quoted_specifier(line: &str) -> (r: Option<String>)
    ensures
        match r {
            Some(s) => quoted_specifier(line@) == Some(s@),
            None => quoted_specifier(line@) is None,
        },
{
    let cs = chars_of(line);
    match quoted_specifier_chars(cs.as_slice()) {
        Some(v) => Some(crate::text::string_of(v.as_slice())),
        None => None,
    }
}

fn quoted_specifier_chars(line: &[char]) -> (r: Option<Vec<char>>)
    ensures
        match r {
            Some(x) => quoted_specifier(line@) == Some(x@),
            None => quoted_specifier(line@) is None,
        },
{
    match quoted_with_exec(line, '"') {
        Some(x) => Some(x),
        None => match quoted_with_exec(line, '\'') {
            Some(x) => Some(x),
            None => quoted_with_exec(line, '`'),
        },
    }
}

/// The imports that one source line declares: none for a comment line; a
/// static import for an `import`/`export` line with a quoted specifier; and
/// a dynamic import marker for a line that calls `import(`.
pub open spec fn line_imports(line: Seq<char>) -> Seq<ImportView> {
    let t = trim(line);
    if has_prefix(t, "//"@) || has_prefix(t, "*"@) {
        Seq::empty()
    } else {
        let stat = if has_prefix(t, "import "@) || has_prefix(t, "export "@) {
            let type_only = (has_infix(t, " type "@) && !has_infix(t, " type {"@)) || has_prefix(
                t,
                "import type "@,
            );
            match quoted_specifier(t) {
                Some(sp) => if sp.len() > 0 {
                    seq![ImportView { specifier: sp, is_dynamic: false, is_type_only: type_only }]
                } else {
                    Seq::empty()
                },
                None => Seq::empty(),
            }
        } else {
            Seq::empty()
        };
        let dynamic = if has_infix(t, "import("@) {
            seq![ImportView { specifier: "<dynamic>"@, is_dynamic: true, is_type_only: false }]
        } else {
            Seq::empty()
        };
        stat + dynamic
    }
}

/// The imports of every line of `t`, in order.
pub open spec fn imports_of(t: Seq<char>) -> Seq<ImportView>
    decreases t.len(),
{
    if t.len() == 0 {
        Seq::empty()
    } else {
        line_imports(line_text(t)) + imports_of(line_rest(t))
    }
}

fn imports_of_line(line: &[char]) -> (r: Vec<ImportDecl>)
    ensures
        imports_view(r@) == line_imports(line@),
{
    let t = trim_chars(line);
    let mut out: Vec<ImportDecl> = Vec::new();
    if starts_with(t.as_slice(), "//") || starts_with(t.as_slice(), "*") {
        assert(imports_view(out@) =~= Seq::<ImportView>::empty());
        return out;
    }
    if starts_with(t.as_slice(), "import ") || starts_with(t.as_slice(), "export ") {
        let is_type_only = contains_text(t.as_slice(), " type ") && !contains_text(
            t.as_slice(),
            " type {",
        );
        let is_type_only = is_type_only || starts_with(t.as_slice(), "import type ");
        match quoted_specifier_chars(t.as_slice()) {
            Some(spec) => {
                if spec.len() > 0 {
                    out.push(
                        ImportDecl {
                            specifier: crate::text::string_of(spec.as_slice()),
                            is_dynamic: false,
                            is_type_only,
                        },
                    );
                }
            },
            None => {},
        }
    }
    if contains_text(t.as_slice(), "import(") {
        out.push(
            ImportDecl { specifier: "<dynamic>".to_owned(), is_dynamic: true, is_type_only: false },
        );
    }
    assert(imports_view(out@) =~= line_imports(line@));
    out
}

/// Extracts the static import specifiers of JS/TS source, line by line (see
/// [`line_imports`]). A line-oriented heuristic, not a parser.
pub fn extract_static_imports(source: &str) -> (r: Vec<ImportDecl>)
    ensures
        imports_view(r@) == imports_of(source@),
{
    let src = chars_of(source);
    let mut imports: Vec<ImportDecl> = Vec::new();
    let mut pos: usize = 0;
    assert(src@.skip(0) =~= src@);
    while pos < src.len()
        invariant
            pos <= src@.len(),
            src@ == source@,
            imports_view(imports@) + imports_of(src@.skip(pos as int)) == imports_of(source@),
        decreases src.len() - pos,
    {
        let (line, next) = next_line(src.as_slice(), pos);
        let mut found = imports_of_line(line.as_slice());
        let ghost before = imports@;
        imports.append(&mut found);
        proof {
            let t = src@.skip(pos as int);
            assert(imports_of(t) == line_imports(line_text(t)) + imports_of(line_rest(t)));
            assert(imports_view(imports@) =~= imports_view(before) + line_imports(line@));
            assert(imports_view(imports@) + imports_of(src@.skip(next as int)) =~= imports_view(
                before,
            ) + imports_of(t));
        }
        pos = next;
    }
    assert(src@.skip(pos as int) =~= Seq::<char>::empty());
    assert(imports_view(imports@) + Seq::<ImportView>::empty() =~= imports_view(imports@));
    imports
}

/// Whether one source line starts a statement with a top-level `await`: not
/// a comment, an `await` statement or assignment, and not indented by two
/// spaces or a tab.
pub open spec fn line_has_tla(line: Seq<char>) -> bool {
    let t = trim(line);
    &&& !has_prefix(t, "//"@)
    &&& (has_prefix(t, "await "@) || has_prefix(t, "const x = await"@) || has_infix(
        t,
        "= await "@,
    ))
    &&& !has_prefix(line, "  "@)
    &&& !has_prefix(line, "\t"@)
}

/// Whether some line of `t` has a top-level `await`.
pub open spec fn has_tla(t: Seq<char>) -> bool
    decreases t.len(),
{
    if t.len() == 0 {
        false
    } else {
        line_has_tla(line_text(t)) || has_tla(line_rest(t))
    }
}

/// Detects top-level await in module source (a line heuristic, see
/// [`line_has_tla`]).
pub fn detect_top_level_await(source: &str) -> (r: bool)
    ensures
        r == has_tla(source@),
{
    let src = chars_of(source);
    let mut pos: usize = 0;
    assert(src@.skip(0) =~= src@);
    while pos < src.len()
        invariant
            pos <= src@.len(),
            src@ == source@,
            has_tla(source@) == has_tla(src@.skip(pos as int)),
        decreases src.len() - pos,
    {
        let (line, next) = next_line(src.as_slice(), pos);
        let t = trim_chars(line.as_slice());
        if !starts_with(t.as_slice(), "//") {
            let awaits = starts_with(t.as_slice(), "await ") || starts_with(
                t.as_slice(),
                "const x = await",
            ) || contains_text(t.as_slice(), "= await ");
            if awaits && !starts_with(line.as_slice(), "  ") && !starts_with(line.as_slice(), "\t") {
                return true;
            }
        }
        pos = next;
    }
    assert(src@.skip(pos as int) =~= Seq::<char>::empty());
    false
}

// ---------------------------------------------------------------------------
// Module records
// ---------------------------------------------------------------------------

/// A single module node in the dependency graph.
#[derive(Debug)]
pub struct ModuleRecord {
    /// Canonical resolved path (or `__bua_builtin__name` for builtins).
    pub resolved_path: String,
    /// Original specifier as written in source.
    pub specifier: String,
    /// Transformed JS source (post-TypeScript strip).
    pub source: String,
    /// Static import specifiers extracted from source.
    pub imports: Vec<ImportDecl>,
    /// Current lifecycle status.
    pub status: ModuleStatus,
    /// Source map JSON if generated during transform.
    pub source_map: Option<String>,
    /// Whether this module uses top-level await.
    pub has_top_level_await: bool,
    /// File modification time (nanoseconds) for cache invalidation.
    pub mtime_ns: Option<u128>,
}

impl ModuleRecord {
    /// A loaded module: its imports and top-level await are read from `source`.
    pub fn new(resolved_path: String, specifier: String, source: String) -> (r: Self)
        ensures
            r.resolved_path@ == resolved_path@,
            r.specifier@ == specifier@,
            r.source@ == source@,
            imports_view(r.imports@) == imports_of(source@),
            r.status is Loaded,
            r.source_map is None,
            r.has_top_level_await == has_tla(source@),
            r.mtime_ns is None,
    {
        let imports = extract_static_imports(source.as_str());
        let has_tla = detect_top_level_await(source.as_str());
        ModuleRecord {
            resolved_path,
            specifier,
            source,
            imports,
            status: ModuleStatus::Loaded,
            source_map: None,
            has_top_level_await: has_tla,
            mtime_ns: None,
        }
    }

    /// Whether this record is a builtin module.
    pub fn is_builtin(&self) -> (r: bool)
        ensures
            r == has_prefix(self.resolved_path@, "__bua_builtin__"@),
    {
        let p = chars_of(self.resolved_path.as_str());
        starts_with(p.as_slice(), "__bua_builtin__")
    }

    /// Marks this module as being linked.
    pub fn begin_link(&mut self)
        ensures
            final(self).status is Linking,
            *final(self) == (ModuleRecord { status: final(self).status, ..*old(self) }),
    {
        self.status = ModuleStatus::Linking;
    }

    /// Marks linking complete.
    pub fn finish_link(&mut self)
        ensures
            final(self).status is Linked,
            *final(self) == (ModuleRecord { status: final(self).status, ..*old(self) }),
    {
        self.status = ModuleStatus::Linked;
    }

    /// Marks evaluation started.
    pub fn begin_eval(&mut self)
        ensures
            final(self).status is Evaluating,
            *final(self) == (ModuleRecord { status: final(self).status, ..*old(self) }),
    {
        self.status = ModuleStatus::Evaluating;
    }

    /// Marks evaluation complete.
    pub fn finish_eval(&mut self)
        ensures
            final(self).status is Evaluated,
            *final(self) == (ModuleRecord { status: final(self).status, ..*old(self) }),
    {
        self.status = ModuleStatus::Evaluated;
    }

    /// Marks the module failed with `reason`.
    pub fn fail(&mut self, reason: String)
        ensures
            final(self).status matches ModuleStatus::Failed(r) && r@ == reason@,
            *final(self) == (ModuleRecord { status: final(self).status, ..*old(self) }),
    {
        self.status = ModuleStatus::Failed(reason);
    }
}

/// Type-only imports are exactly the marked ones: a line that starts with
/// `import ` but not `import type `, and holds no ` type `, declares no
/// type-only import; a line that starts with `import type ` declares only
/// type-only static imports.
pub proof fn law_plain_import_is_not_type_only(line: Seq<char>)
    ensures
        has_prefix(trim(line), "import "@) && !has_prefix(trim(line), "import type "@) && !has_infix(
            trim(line),
            " type "@,
        ) ==> forall|i: int| 0 <= i < line_imports(line).len() ==> !(#[trigger] line_imports(line)[i]).is_type_only,
        has_prefix(trim(line), "import type "@) ==> forall|i: int|
            0 <= i < line_imports(line).len() && !(#[trigger] line_imports(line)[i]).is_dynamic
                ==> line_imports(line)[i].is_type_only,
{
    let t = trim(line);
    if has_prefix(t, "import type "@) {
        reveal_strlit("import type ");
        reveal_strlit("import ");
        assert(has_prefix(t, "import "@)) by {
            assert(t.subrange(0, 12) == "import type "@);
            assert forall|k: int| 0 <= k < 7 implies t.subrange(0, 7)[k] == "import "@[k] by {
                assert(t.subrange(0, 7)[k] == t.subrange(0, 12)[k]);
            }
            assert(t.subrange(0, 7) =~= "import "@);
        }
        assert(!has_prefix(t, "//"@)) by {
            reveal_strlit("//");
            assert(t.subrange(0, 12)[0] == 'i');
        }
        assert(!has_prefix(t, "*"@)) by {
            reveal_strlit("*");
            assert(t.subrange(0, 12)[0] == 'i');
        }
    }
    if has_prefix(t, "import "@) {
        reveal_strlit("import ");
        assert(!has_prefix(t, "//"@)) by {
            reveal_strlit("//");
            assert(t.subrange(0, 7)[0] == 'i');
        }
        assert(!has_prefix(t, "*"@)) by {
            reveal_strlit("*");
            assert(t.subrange(0, 7)[0] == 'i');
        }
    }
}

} // verus!
