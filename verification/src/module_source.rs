//! Decision rules of the script-module loader: which source a module
//! specifier's scheme selects, and what a fetched file's media kind means
//! for the module that is handed to the runtime.  The fetching itself —
//! network, filesystem or embedded archive — and the transpilation are the
//! runtime's work; these rules only decide.

use vstd::prelude::*;

verus! {

/// Where a module specifier's scheme says the source lives.
#[derive(Clone, Copy, PartialEq, Eq, Structural, Debug)]
pub enum SourceScheme {
    Remote,
    FileSystem,
    Embedded,
}

/// The media kind of a fetched file, as its path's extension names it.
#[derive(Clone, Copy, PartialEq, Eq, Structural, Debug)]
pub enum MediaKind {
    JavaScript,
    Mjs,
    Cjs,
    Jsx,
    TypeScript,
    Mts,
    Cts,
    Dts,
    Dmts,
    Dcts,
    Tsx,
    Json,
    Unknown,
}

/// What the runtime is handed: a JavaScript module or a JSON module.
#[derive(Clone, Copy, PartialEq, Eq, Structural, Debug)]
pub enum ModuleKind {
    JavaScript,
    Json,
}

/// The loader's plan for one fetched file: what module kind to produce and
/// whether the source must be transpiled first.
#[derive(Clone, Copy, PartialEq, Eq, Structural, Debug)]
pub struct ModulePlan {
    pub module_kind: ModuleKind,
    pub transpile: bool,
}

/// The scheme table: `http` and `https` are remote, `file` is the
/// filesystem, `embedded` is the embedded archive; anything else is unknown
/// and refused.
pub open spec fn scheme_source_spec(scheme: Seq<char>) -> Option<SourceScheme> {
    if scheme == "http"@ || scheme == "https"@ {
        Some(SourceScheme::Remote)
    } else if scheme == "file"@ {
        Some(SourceScheme::FileSystem)
    } else if scheme == "embedded"@ {
        Some(SourceScheme::Embedded)
    } else {
        None
    }
}

/// The media table: plain JavaScript forms pass through untranspiled; JSX,
/// TypeScript and every TypeScript-adjacent form are transpiled to
/// JavaScript; JSON is its own module kind; anything else is refused.
pub open spec fn module_plan_spec(media: MediaKind) -> Option<ModulePlan> {
    match media {
        MediaKind::JavaScript | MediaKind::Mjs | MediaKind::Cjs => Some(
            ModulePlan { module_kind: ModuleKind::JavaScript, transpile: false },
        ),
        MediaKind::Jsx => Some(ModulePlan { module_kind: ModuleKind::JavaScript, transpile: true }),
        MediaKind::TypeScript | MediaKind::Mts | MediaKind::Cts | MediaKind::Dts | MediaKind::Dmts
            | MediaKind::Dcts | MediaKind::Tsx => Some(
            ModulePlan { module_kind: ModuleKind::JavaScript, transpile: true },
        ),
        MediaKind::Json => Some(ModulePlan { module_kind: ModuleKind::Json, transpile: false }),
        MediaKind::Unknown => None,
    }
}

/// Character-for-character string equality.
fn eq_str(a: &str, b: &str) -> (r: bool)
    ensures
        r == (a@ == b@),
{
    let alen = a.unicode_len();
    let blen = b.unicode_len();
    if alen != blen {
        proof {
            assert(a@ != b@);
        }
        return false;
    }
    let mut i: usize = 0;
    while i < alen
        invariant
            0 <= i <= alen,
            alen == a@.len(),
            alen == b@.len(),
            forall|k: int| 0 <= k < i ==> a@[k] == b@[k],
        decreases alen - i,
    {
        if a.get_char(i) as u32 != b.get_char(i) as u32 {
            proof {
                vstd::utf8::char_u32_cast(a@[i as int], a@[i as int] as u32);
                vstd::utf8::char_u32_cast(b@[i as int], b@[i as int] as u32);
                assert(a@[i as int] != b@[i as int]);
            }
            return false;
        }
        i = i + 1;
    }
    proof {
        assert(a@ =~= b@);
    }
    true
}

/// Classifies a module specifier's scheme; returns exactly what the scheme
/// table names, `None` for an unknown protocol scheme.
pub fn classify_scheme(scheme: &str) -> (r: Option<SourceScheme>)
    ensures
        r == scheme_source_spec(scheme@),
{
    if eq_str(scheme, "http") || eq_str(scheme, "https") {
        Some(SourceScheme::Remote)
    } else if eq_str(scheme, "file") {
        Some(SourceScheme::FileSystem)
    } else if eq_str(scheme, "embedded") {
        Some(SourceScheme::Embedded)
    } else {
        None
    }
}

/// Decides the module kind and the transpilation need for a fetched file;
/// returns exactly what the media table names, `None` for an unknown
/// extension.
pub fn module_plan(media: MediaKind) -> (r: Option<ModulePlan>)
    ensures
        r == module_plan_spec(media),
{
    match media {
        MediaKind::JavaScript | MediaKind::Mjs | MediaKind::Cjs => Some(
            ModulePlan { module_kind: ModuleKind::JavaScript, transpile: false },
        ),
        MediaKind::Jsx => Some(ModulePlan { module_kind: ModuleKind::JavaScript, transpile: true }),
        MediaKind::TypeScript | MediaKind::Mts | MediaKind::Cts | MediaKind::Dts | MediaKind::Dmts
            | MediaKind::Dcts | MediaKind::Tsx => Some(
            ModulePlan { module_kind: ModuleKind::JavaScript, transpile: true },
        ),
        MediaKind::Json => Some(ModulePlan { module_kind: ModuleKind::Json, transpile: false }),
        MediaKind::Unknown => None,
    }
}

/// Strips the root slash from an embedded specifier's path, which the
/// archive lookup wants relative.
pub fn embedded_relative_path(path: &str) -> (r: &str)
    requires
        path@.len() > 0,
    ensures
        r@ == path@.skip(1),
{
    let len = path.unicode_len();
    path.substring_char(1, len)
}

} // verus!
