//! TypeScript to JavaScript: a line-oriented strip of type-only syntax.
use vstd::prelude::*;

use crate::clock::{micros_since, monotonic_now};
use crate::error::BuaError;
use crate::record::{line_rest, line_text, next_line};
use crate::text::{chars_of, contains_text, push_char, starts_with, trim_start, trim_start_chars, has_infix, has_prefix};

verus! {

/// Target JS version emitted.
#[derive(Clone, Copy, PartialEq, Eq, Structural, Debug)]
pub enum Target {
    Es2022,
    Es2020,
}

/// Transpiler configuration.
#[derive(Clone, Copy, PartialEq, Eq, Structural, Debug)]
pub struct TranspilerConfig {
    pub target: Target,
    pub source_maps: bool,
    pub minify: bool,
}

impl Default for TranspilerConfig {
    fn default() -> (c: Self)
        ensures
            c == (TranspilerConfig { target: Target::Es2022, source_maps: false, minify: false }),
    {
        TranspilerConfig { target: Target::Es2022, source_maps: false, minify: false }
    }
}

/// Output of a transpile operation.
#[derive(Debug)]
pub struct TranspileOutput {
    pub code: String,
    pub source_map: Option<String>,
    /// Time taken in microseconds.
    pub duration_us: u64,
}

/// A stateless transpiler.
#[derive(Clone, Copy, PartialEq, Eq, Structural, Debug)]
pub struct Transpiler {
    pub config: TranspilerConfig,
}

impl Default for Transpiler {
    fn default() -> (t: Self)
        ensures
            t.config == (TranspilerConfig { target: Target::Es2022, source_maps: false, minify: false }),
    {
        Transpiler { config: TranspilerConfig::default() }
    }
}

/// Name for what `std::path::Path::extension` gives for a path, as text:
/// the part of the file name after its last `.`, if any, as the target's
/// path syntax reads it.
pub uninterp spec fn spec_path_extension(path: Seq<char>) -> Option<Seq<char>>;

/// `Path::new(path).extension()` from std, as text. Claimed: the result is
/// [`spec_path_extension`] of the path; nothing more is stated of it.
#[verifier::external_body]
fn path_extension(path: &str) -> (r: Option<String>)
    ensures
        match r {
            Some(e) => spec_path_extension(path@) == Some(e@),
            None => spec_path_extension(path@) is None,
        },
{
    std::path::Path::new(path).extension().and_then(|e| e.to_str()).map(|e| e.to_owned())
}

/// Whether a path's extension marks TypeScript: `ts`, `tsx` or `mts`.
pub open spec fn is_ts_extension(ext: Option<Seq<char>>) -> bool {
    match ext {
        Some(e) => e == "ts"@ || e == "tsx"@ || e == "mts"@,
        None => false,
    }
}

/// Whether a source line declares types only, and is dropped: an
/// `import type`, `export type`, `export interface`, `interface`, type
/// alias (`type ... = ...`) or `declare` line.
pub open spec fn line_dropped(line: Seq<char>) -> bool {
    let t = trim_start(line);
    has_prefix(t, "import type "@) || has_prefix(t, "export type "@) || has_prefix(
        t,
        "export interface "@,
    ) || has_prefix(t, "interface "@) || (has_prefix(t, "type "@) && has_infix(t, " = "@))
        || has_prefix(t, "declare "@)
}

/// `src` with each dropped line emptied: every line ends with `'\n'`.
pub open spec fn stripped(src: Seq<char>) -> Seq<char>
    decreases src.len(),
{
    if src.len() == 0 {
        Seq::empty()
    } else {
        let l = line_text(src);
        (if line_dropped(l) {
            seq!['\n']
        } else {
            l.push('\n')
        }) + stripped(line_rest(src))
    }
}

/// Strips type-only lines from TypeScript source (see [`stripped`]).
pub fn strip_typescript_stub(source: &str) -> (out: String)
    ensures
        out@ == stripped(source@),
{
    let src = chars_of(source);
    let mut out = String::new();
    let mut pos: usize = 0;
    assert(src@.skip(0) =~= src@);
    while pos < src.len()
        invariant
            pos <= src@.len(),
            src@ == source@,
            out@ + stripped(src@.skip(pos as int)) == stripped(source@),
        decreases src.len() - pos,
    {
        let (line, next) = next_line(src.as_slice(), pos);
        let t = trim_start_chars(line.as_slice());
        let ts = t.as_slice();
        let ghost before = out@;
        let dropped = starts_with(ts, "import type ") || starts_with(ts, "export type ")
            || starts_with(ts, "export interface ") || starts_with(ts, "interface ") || (
        starts_with(ts, "type ") && contains_text(ts, " = ")) || starts_with(ts, "declare ");
        if dropped {
            push_char(&mut out, '\n');
        } else {
            let mut k: usize = 0;
            while k < line.len()
                invariant
                    k <= line@.len(),
                    out@ == before + line@.take(k as int),
                decreases line.len() - k,
            {
                push_char(&mut out, line[k]);
                k = k + 1;
                assert(out@ =~= before + line@.take(k as int));
            }
            assert(line@.take(line@.len() as int) =~= line@);
            push_char(&mut out, '\n');
        }
        proof {
            let rest = src@.skip(pos as int);
            assert(stripped(rest) == (if line_dropped(line@) {
                seq!['\n']
            } else {
                line@.push('\n')
            }) + stripped(line_rest(rest)));
            assert(out@ + stripped(src@.skip(next as int)) =~= before + stripped(rest));
        }
        pos = next;
    }
    assert(src@.skip(pos as int) =~= Seq::<char>::empty());
    assert(out@ + Seq::<char>::empty() =~= out@);
    out
}

impl Transpiler {
    /// A transpiler with `config`.
    pub fn new(config: TranspilerConfig) -> (t: Self)
        ensures
            t.config == config,
    {
        Transpiler { config }
    }

    /// Whether a file needs transpiling: its extension is `ts`, `tsx` or
    /// `mts`.
    pub fn needs_transpile(path: &str) -> (r: bool)
        ensures
            r == is_ts_extension(spec_path_extension(path@)),
    {
        match path_extension(path) {
            Some(e) => {
                let r = crate::text::text_eq(e.as_str(), "ts") || crate::text::text_eq(
                    e.as_str(),
                    "tsx",
                ) || crate::text::text_eq(e.as_str(), "mts");
                r
            },
            None => false,
        }
    }

    /// Transpiles TypeScript source to JavaScript (see [`stripped`]); the
    /// output carries no source map and the time taken.
    pub fn transpile(&self, source: &str, _filename: &str) -> (r: Result<TranspileOutput, BuaError>)
        ensures
            r matches Ok(o) && o.code@ == stripped(source@) && o.source_map is None,
    {
        let start = monotonic_now();
        let js = strip_typescript_stub(source);
        let duration_us = micros_since(&start);
        Ok(TranspileOutput { code: js, source_map: None, duration_us })
    }
}

/// A declaration-only line is emptied and every other line is kept: when
/// the first line of `src`, after its leading whitespace, starts with
/// `import type `, `export type `, `export interface `, `interface ` or
/// `declare `, the output begins with an empty line; when it starts with
/// none of these and is no type alias, the output begins with the line as
/// it is. A line starting with `type ` is emptied exactly when it is an
/// alias (holds ` = `). The rest of the source is stripped the same way.
pub proof fn law_type_lines_emptied(src: Seq<char>)
    requires
        src.len() > 0,
    ensures
        ({
            let t = trim_start(line_text(src));
            has_prefix(t, "import type "@) || has_prefix(t, "export type "@) || has_prefix(
                t,
                "export interface "@,
            ) || has_prefix(t, "interface "@) || has_prefix(t, "declare "@)
        }) ==> stripped(src) == seq!['\n'] + stripped(line_rest(src)),
        ({
            let t = trim_start(line_text(src));
            !has_prefix(t, "import type "@) && !has_prefix(t, "export type "@) && !has_prefix(
                t,
                "export interface "@,
            ) && !has_prefix(t, "interface "@) && !has_prefix(t, "declare "@) && !has_prefix(t, "type "@)
        }) ==> stripped(src) == line_text(src).push('\n') + stripped(line_rest(src)),
        has_prefix(trim_start(line_text(src)), "type "@) ==> (stripped(src) == if has_infix(
            trim_start(line_text(src)),
            " = "@,
        ) {
            seq!['\n'] + stripped(line_rest(src))
        } else {
            line_text(src).push('\n') + stripped(line_rest(src))
        }),
{
    let t = trim_start(line_text(src));
    if has_prefix(t, "type "@) {
        reveal_strlit("type ");
        reveal_strlit("import type ");
        reveal_strlit("export type ");
        reveal_strlit("export interface ");
        reveal_strlit("interface ");
        reveal_strlit("declare ");
        assert(t[0] == 't') by {
            assert(t.subrange(0, 5)[0] == t[0]);
        }
        if has_prefix(t, "import type "@) {
            assert(t.subrange(0, 12)[0] == t[0]);
        }
        if has_prefix(t, "export type "@) {
            assert(t.subrange(0, 12)[0] == t[0]);
        }
        if has_prefix(t, "export interface "@) {
            assert(t.subrange(0, 17)[0] == t[0]);
        }
        if has_prefix(t, "interface "@) {
            assert(t.subrange(0, 10)[0] == t[0]);
        }
        if has_prefix(t, "declare "@) {
            assert(t.subrange(0, 8)[0] == t[0]);
        }
    }
}

} // verus!
