//! Built-in Bua modules, imported as `bua:*`: synthetic modules whose
//! source ships with the runtime.
use vstd::prelude::*;

use crate::text::text_eq;

verus! {

/// The registry of built-in module sources, by name.
#[derive(Debug)]
pub struct BuiltinRegistry {
    modules: Vec<(String, String)>,
}

/// The built-in modules, in registration order: name and source.
pub open spec fn builtin_table() -> Seq<(Seq<char>, Seq<char>)> {
    seq![
        ("fs"@, BUA_FS_MODULE@),
        ("env"@, BUA_ENV_MODULE@),
        ("trace"@, BUA_TRACE_MODULE@),
        ("agent"@, BUA_AGENT_MODULE@),
        ("tools"@, BUA_TOOLS_MODULE@),
        ("time"@, BUA_TIME_MODULE@),
        ("memory"@, BUA_MEMORY_MODULE@),
        ("random"@, BUA_RANDOM_MODULE@),
    ]
}

/// The source registered under `name` in `t`: the first entry with that name.
pub open spec fn lookup(t: Seq<(Seq<char>, Seq<char>)>, name: Seq<char>) -> Option<Seq<char>>
    decreases t.len(),
{
    if t.len() == 0 {
        None
    } else if t[0].0 == name {
        Some(t[0].1)
    } else {
        lookup(t.drop_first(), name)
    }
}

impl View for BuiltinRegistry {
    type V = Seq<(Seq<char>, Seq<char>)>;

    closed spec fn view(&self) -> Seq<(Seq<char>, Seq<char>)> {
        self.modules@.map_values(|e: (String, String)| (e.0@, e.1@))
    }
}

impl BuiltinRegistry {
    /// The registry of every built-in module.
    pub fn new() -> (r: Self)
        ensures
            r@ == builtin_table(),
    {
        let mut modules: Vec<(String, String)> = Vec::new();
        modules.push(("fs".to_owned(), BUA_FS_MODULE.to_owned()));
        modules.push(("env".to_owned(), BUA_ENV_MODULE.to_owned()));
        modules.push(("trace".to_owned(), BUA_TRACE_MODULE.to_owned()));
        modules.push(("agent".to_owned(), BUA_AGENT_MODULE.to_owned()));
        modules.push(("tools".to_owned(), BUA_TOOLS_MODULE.to_owned()));
        modules.push(("time".to_owned(), BUA_TIME_MODULE.to_owned()));
        modules.push(("memory".to_owned(), BUA_MEMORY_MODULE.to_owned()));
        modules.push(("random".to_owned(), BUA_RANDOM_MODULE.to_owned()));
        let r = BuiltinRegistry { modules };
        assert(r@ =~= builtin_table());
        r
    }

    /// The source of the built-in module `name`.
    pub fn get(&self, name: &str) -> (r: Option<&str>)
        ensures
            match lookup(self@, name@) {
                Some(src) => r matches Some(x) && x@ == src,
                None => r is None,
            },
    {
        let mut i: usize = 0;
        assert(self@.skip(0) =~= self@);
        while i < self.modules.len()
            invariant
                i <= self.modules@.len(),
                lookup(self@, name@) == lookup(self@.skip(i as int), name@),
            decreases self.modules.len() - i,
        {
            let ghost rest = self@.skip(i as int);
            assert(rest[0] == (self.modules@[i as int].0@, self.modules@[i as int].1@));
            assert(rest.drop_first() =~= self@.skip(i + 1));
            if text_eq(self.modules[i].0.as_str(), name) {
                return Some(self.modules[i].1.as_str());
            }
            i = i + 1;
        }
        assert(self@.skip(i as int).len() == 0);
        None
    }

    /// The names of the built-in modules, in registration order.
    pub fn names(&self) -> (r: Vec<&str>)
        ensures
            r@.len() == self@.len(),
            forall|i: int| 0 <= i < r@.len() ==> #[trigger] r@[i]@ == self@[i].0,
    {
        let mut out: Vec<&str> = Vec::new();
        let mut i: usize = 0;
        while i < self.modules.len()
            invariant
                i <= self.modules@.len(),
                out@.len() == i,
                forall|j: int| 0 <= j < i ==> #[trigger] out@[j]@ == self@[j].0,
            decreases self.modules.len() - i,
        {
            out.push(self.modules[i].0.as_str());
            i = i + 1;
        }
        out
    }
}

// ---------------------------------------------------------------------------
// bua:fs — filesystem access (capability-gated)
// ---------------------------------------------------------------------------

pub const BUA_FS_MODULE: &'static str = r#"
/**
 * bua:fs — Capability-gated filesystem access.
 * Requires --allow-fs capability.
 */

const _native = globalThis.Bua?.native ?? {};

/** Read a UTF-8 text file. */
export async function readFile(path) {
  const result = await Bua.tools.call('bua_read_file', { path });
  if (result.error) throw new Error(`bua:fs readFile: ${result.error}`);
  return result.output?.content ?? '';
}

/** Write a UTF-8 text file. */
export async function writeFile(path, content) {
  const result = await Bua.tools.call('bua_write_file', { path, content });
  if (result.error) throw new Error(`bua:fs writeFile: ${result.error}`);
}

/** Check if a path exists. */
export async function exists(path) {
  try {
    await Bua.tools.call('bua_stat', { path });
    return true;
  } catch {
    return false;
  }
}

/** Read a directory's entries. */
export async function readDir(path) {
  const result = await Bua.tools.call('bua_read_dir', { path });
  if (result.error) throw new Error(`bua:fs readDir: ${result.error}`);
  return result.output?.entries ?? [];
}

export default { readFile, writeFile, exists, readDir };
"#;

// ---------------------------------------------------------------------------
// bua:env — environment variable access (capability-gated)
// ---------------------------------------------------------------------------

pub const BUA_ENV_MODULE: &'static str = r#"
/**
 * bua:env — Capability-gated environment variable access.
 * Requires --allow-env capability.
 */

/** Get an environment variable. Returns undefined if not set or not permitted. */
export function get(key) {
  return Bua.env?.get(key);
}

/** Get an environment variable or throw if missing. */
export function require(key) {
  const val = get(key);
  if (val === undefined) throw new Error(`Required environment variable '${key}' is not set`);
  return val;
}

/** Get all allowed environment variables as an object. */
export function all() {
  return Bua.env?.all() ?? {};
}

export default { get, require, all };
"#;

// ---------------------------------------------------------------------------
// bua:trace — structured execution tracing
// ---------------------------------------------------------------------------

pub const BUA_TRACE_MODULE: &'static str = r#"
/**
 * bua:trace — Structured execution tracing.
 * Events are written to the agent's ExecutionTrace.
 */

const _t = globalThis.Bua?.trace;

export const log = (level, msg, meta) => _t?.log(level, msg, meta);
export const info  = (msg, meta) => log('info', msg, meta);
export const warn  = (msg, meta) => log('warn', msg, meta);
export const error = (msg, meta) => log('error', msg, meta);
export const debug = (msg, meta) => log('debug', msg, meta);

/** Export the trace as NDJSON string. */
export const exportNdjson = () => _t?.exportNdjson?.() ?? '';

/** Annotate the current execution with a label for snapshot identification. */
export const checkpoint = (label) => _t?.checkpoint?.(label);

export default { log, info, warn, error, debug, exportNdjson, checkpoint };
"#;

// ---------------------------------------------------------------------------
// bua:agent — agent spawning and coordination
// ---------------------------------------------------------------------------

pub const BUA_AGENT_MODULE: &'static str = r#"
/**
 * bua:agent — Spawn and coordinate child agents.
 * Requires AgentSpawn capability.
 */

/**
 * Spawn a child agent.
 * @param {object} config
 * @param {string} config.entrypoint - Path to the agent script
 * @param {string[]} [config.allowFs] - Filesystem paths to grant
 * @param {string[]} [config.allowNet] - Network hosts to grant
 * @param {number} [config.timeout] - Timeout in milliseconds
 */
export async function spawn(config) {
  return await Bua.agent.spawn(config);
}

/**
 * Spawn multiple agents in parallel and collect results.
 * @param {object[]} configs - Array of spawn configs
 */
export async function spawnAll(configs) {
  return Promise.all(configs.map(spawn));
}

/**
 * Current agent ID.
 */
export const id = () => Bua.agent?.id;

/**
 * Current agent's parent ID (undefined for root agents).
 */
export const parentId = () => Bua.agent?.parentId;

export default { spawn, spawnAll, id, parentId };
"#;

// ---------------------------------------------------------------------------
// bua:tools — tool calling interface
// ---------------------------------------------------------------------------

pub const BUA_TOOLS_MODULE: &'static str = r#"
/**
 * bua:tools — Direct tool calling interface.
 */

/**
 * Call a registered tool by name.
 * @param {string} name - Tool name
 * @param {object} args - Tool arguments (JSON-serializable)
 * @returns {Promise<unknown>} Tool result
 */
export async function call(name, args = {}) {
  const result = await Bua.tools.call(name, args);
  if (result.error) throw Object.assign(new Error(result.error), { toolName: name });
  return result.output;
}

/**
 * List all registered tools with their schemas.
 */
export function list() {
  return Bua.tools.list() ?? [];
}

/**
 * Check if a tool is registered.
 */
export function has(name) {
  return list().some(t => t.name === name);
}

export default { call, list, has };
"#;

// ---------------------------------------------------------------------------
// bua:time — deterministic time control
// ---------------------------------------------------------------------------

pub const BUA_TIME_MODULE: &'static str = r#"
/**
 * bua:time — Deterministic time control.
 * In --deterministic mode, these functions control the frozen clock.
 */

/** Current time in milliseconds (like Date.now() but determinism-aware). */
export function now() {
  return Bua.time?.now() ?? Date.now();
}

/** Freeze time at the current value. No-op in live mode. */
export function freeze() {
  Bua.time?.freeze();
}

/** Advance virtual time by delta milliseconds. No-op in live mode. */
export function advance(deltaMs) {
  Bua.time?.advance(deltaMs);
}

/** Set virtual time to an absolute timestamp. */
export function set(timestampMs) {
  Bua.time?.set(timestampMs);
}

export default { now, freeze, advance, set };
"#;

// ---------------------------------------------------------------------------
// bua:memory — persistent agent memory (KV store)
// ---------------------------------------------------------------------------

pub const BUA_MEMORY_MODULE: &'static str = r#"
/**
 * bua:memory — Persistent agent memory (survives across snapshots).
 * Data is included in the MemoryStratum of snapshots.
 */

/** Store a value under a key. */
export async function put(key, value) {
  return Bua.memory?.put(key, value);
}

/** Retrieve a value by key. Returns undefined if not set. */
export async function get(key) {
  return Bua.memory?.get(key);
}

/** Delete a key. */
export async function del(key) {
  return Bua.memory?.del(key);
}

/** List all keys matching an optional prefix. */
export async function list(prefix = '') {
  return Bua.memory?.list(prefix) ?? [];
}

export default { put, get, del, list };
"#;

// ---------------------------------------------------------------------------
// bua:random — deterministic random number generation
// ---------------------------------------------------------------------------

pub const BUA_RANDOM_MODULE: &'static str = r#"
/**
 * bua:random — Deterministic RNG.
 * In --deterministic mode, uses a seeded PRNG.
 * In live mode, uses crypto.getRandomValues().
 */

/** Seed the deterministic RNG. Only has effect in --deterministic mode. */
export function seed(s) {
  Bua.random?.seed(s);
}

/** Generate a random float in [0, 1). Deterministic if seeded. */
export function random() {
  return Bua.random?.random() ?? Math.random();
}

/** Generate a random integer in [min, max). */
export function randInt(min, max) {
  return Math.floor(random() * (max - min)) + min;
}

/** Generate a random UUID v4 string. Deterministic if seeded. */
export function uuid() {
  return Bua.random?.uuid() ?? crypto.randomUUID();
}

export default { seed, random, randInt, uuid };
"#;

} // verus!
