//! What the tool learns about a project: where its Convex code lies, which files it has, which
//! framework it uses, and which of its source files to scan.
//!
//! The file system is read by the caller; the decisions on what it shows are made here.
use vstd::prelude::*;

use crate::config::{file_ignored, last_component, relative_path, relative_to, Config};
use crate::rules::{lemma_select_map_members, lemma_select_map_step, select_map};
use crate::text::{
    chars_of, contains, has_infix, has_prefix, owned, push_str, skip_chars, starts_with, str_eq,
    string_views,
};
use crate::config::file_name_of;

verus! {

/// The file names of a schema, one per script extension.
pub open spec fn schema_file_names() -> Seq<Seq<char>> {
    seq!["schema.ts"@, "schema.js"@, "schema.mts"@, "schema.cts"@, "schema.mjs"@, "schema.cjs"@]
}

/// What the tool reads of `package.json`.
#[derive(Debug, Clone)]
pub struct PackageManifest {
    /// The `dependencies` table, `None` when absent or not an object.
    pub dependencies: Option<Vec<(String, Option<String>)>>,
    /// The `devDependencies` table, `None` when absent or not an object.
    pub dev_dependencies: Option<Vec<(String, Option<String>)>>,
}

/// What the file system shows of a project root.
#[derive(Debug, Clone)]
pub struct ProjectListing {
    /// `convex/` under the root is a directory.
    pub convex_dir_exists: bool,
    /// The names of the entries directly in `convex/`.
    pub convex_entries: Vec<String>,
    /// The names of the entries directly in the root.
    pub root_entries: Vec<String>,
    /// `package.json`, when it could be read and parsed.
    pub manifest: Option<PackageManifest>,
}

/// A detected Convex project.
#[derive(Debug, Clone)]
pub struct ProjectInfo {
    pub root: String,
    pub convex_dir: String,
    pub has_schema: bool,
    pub has_auth_config: bool,
    pub has_convex_json: bool,
    pub convex_version: Option<String>,
    pub framework: Option<String>,
}

/// `name` under directory `dir`, as `Path::join` writes a relative name.
pub open spec fn join_path(dir: Seq<char>, name: Seq<char>) -> Seq<char> {
    if dir.len() == 0 {
        name
    } else if dir.last() == '/' {
        dir + name
    } else {
        dir + "/"@ + name
    }
}

/// The position of the first entry for `name`, or the number of entries when there is none.
pub open spec fn dep_index(table: Seq<(String, Option<String>)>, name: Seq<char>) -> int
    decreases table.len(),
{
    if table.len() == 0 {
        0
    } else if table[0].0@ == name {
        0
    } else {
        1 + dep_index(table.drop_first(), name)
    }
}

/// The table has an entry for `name`.
pub open spec fn table_has(table: Option<Vec<(String, Option<String>)>>, name: Seq<char>) -> bool {
    match table {
        Some(t) => dep_index(t@, name) < t@.len(),
        None => false,
    }
}

/// The string value of the entry for `name`, when the table has it and it is a string.
pub open spec fn table_value(table: Option<Vec<(String, Option<String>)>>, name: Seq<char>) -> Option<Seq<char>> {
    match table {
        Some(t) => if dep_index(t@, name) < t@.len() {
            match t@[dep_index(t@, name)].1 {
                Some(v) => Some(v@),
                None => None,
            }
        } else {
            None
        },
        None => None,
    }
}

/// The package is a dependency or a development dependency.
pub open spec fn has_dep(m: PackageManifest, name: Seq<char>) -> bool {
    table_has(m.dependencies, name) || table_has(m.dev_dependencies, name)
}

/// The declared version of `convex`: from `dependencies` when listed there, else from
/// `devDependencies`; `None` when not a string.
pub open spec fn convex_version_of(m: Option<PackageManifest>) -> Option<Seq<char>> {
    match m {
        Some(m) => if table_has(m.dependencies, "convex"@) {
            table_value(m.dependencies, "convex"@)
        } else {
            table_value(m.dev_dependencies, "convex"@)
        },
        None => None,
    }
}

/// The framework: Next.js, else Vite, else Remix, by the packages the project depends on.
pub open spec fn framework_of(m: Option<PackageManifest>) -> Option<Seq<char>> {
    match m {
        Some(m) => if has_dep(m, "next"@) {
            Some("nextjs"@)
        } else if has_dep(m, "vite"@) {
            Some("vite"@)
        } else if has_dep(m, "@remix-run/node"@) {
            Some("remix"@)
        } else {
            None
        },
        None => None,
    }
}

/// The error when the root has no `convex/` directory.
pub open spec fn no_convex_dir_message(root: Seq<char>) -> Seq<char> {
    "No convex/ directory found in "@ + root
}

/// What detection finds for the project at `root` with `listing`.
pub open spec fn detected(info: ProjectInfo, root: Seq<char>, listing: ProjectListing) -> bool {
    &&& info.root@ == root
    &&& info.convex_dir@ == join_path(root, "convex"@)
    &&& info.has_schema == exists|i: int|
        0 <= i < schema_file_names().len() && string_views(listing.convex_entries@).contains(
            #[trigger] schema_file_names()[i],
        )
    &&& info.has_auth_config == (string_views(listing.convex_entries@).contains("auth.config.ts"@)
        || string_views(listing.convex_entries@).contains("auth.config.js"@))
    &&& info.has_convex_json == string_views(listing.root_entries@).contains("convex.json"@)
    &&& opt_view(info.convex_version) == convex_version_of(listing.manifest)
    &&& opt_view(info.framework) == framework_of(listing.manifest)
}

/// The string views of an optional string.
pub open spec fn opt_view(s: Option<String>) -> Option<Seq<char>> {
    match s {
        Some(s) => Some(s@),
        None => None,
    }
}

/// Whether `name` is the file name of a schema.
pub fn is_schema_file_name(name: &str) -> (b: bool)
    ensures
        b == schema_file_names().contains(name@),
{
    proof {
        reveal_strlit("schema.ts");
        reveal_strlit("schema.js");
        reveal_strlit("schema.mts");
        reveal_strlit("schema.cts");
        reveal_strlit("schema.mjs");
        reveal_strlit("schema.cjs");
    }
    let b = str_eq(name, "schema.ts") || str_eq(name, "schema.js") || str_eq(name, "schema.mts") || str_eq(
        name,
        "schema.cts",
    ) || str_eq(name, "schema.mjs") || str_eq(name, "schema.cjs");
    proof {
        let ns = schema_file_names();
        if ns.contains(name@) {
            let k = choose|k: int| 0 <= k < ns.len() && ns[k] == name@;
            assert(b);
        }
        if b {
            if name@ == "schema.ts"@ { assert(ns[0] == name@); }
            else if name@ == "schema.js"@ { assert(ns[1] == name@); }
            else if name@ == "schema.mts"@ { assert(ns[2] == name@); }
            else if name@ == "schema.cts"@ { assert(ns[3] == name@); }
            else if name@ == "schema.mjs"@ { assert(ns[4] == name@); }
            else { assert(ns[5] == name@); }
        }
    }
    b
}

/// The entry for `name` in a dependency table.
fn find_dep(table: &Vec<(String, Option<String>)>, name: &str) -> (k: usize)
    ensures
        k == dep_index(table@, name@),
        k <= table@.len(),
{
    let mut k: usize = 0;
    assert(table@.skip(0) =~= table@);
    while k < table.len() && !str_eq(table[k].0.as_str(), name)
        invariant
            k <= table.len(),
            dep_index(table@, name@) == k + dep_index(table@.skip(k as int), name@),
        decreases table.len() - k,
    {
        proof {
            assert(table@.skip(k as int)[0] == table@[k as int]);
            assert(table@.skip(k as int).drop_first() =~= table@.skip(k + 1));
        }
        k = k + 1;
    }
    proof {
        if k < table.len() {
            assert(table@.skip(k as int)[0] == table@[k as int]);
        } else {
            assert(table@.skip(k as int) =~= Seq::<(String, Option<String>)>::empty());
        }
    }
    k
}

/// Whether the optional table lists `name`.
fn table_lists(table: &Option<Vec<(String, Option<String>)>>, name: &str) -> (b: bool)
    ensures
        b == table_has(*table, name@),
{
    match table {
        Some(t) => find_dep(t, name) < t.len(),
        None => false,
    }
}

/// The string value listed for `name`, if any.
fn table_version(table: &Option<Vec<(String, Option<String>)>>, name: &str) -> (r: Option<String>)
    ensures
        opt_view(r) == table_value(*table, name@),
{
    match table {
        Some(t) => {
            let k = find_dep(t, name);
            if k < t.len() {
                match &t[k].1 {
                    Some(v) => Some(owned(v.as_str())),
                    None => None,
                }
            } else {
                None
            }
        },
        None => None,
    }
}

/// Whether `names` holds `name`.
fn lists(names: &Vec<String>, name: &str) -> (b: bool)
    ensures
        b == string_views(names@).contains(name@),
{
    crate::text::contains_string(names, name)
}

/// `name` under directory `dir`.
pub fn join_path_string(dir: &str, name: &str) -> (r: String)
    ensures
        r@ == join_path(dir@, name@),
{
    let dv = chars_of(dir);
    if dv.len() == 0 {
        return owned(name);
    }
    let mut r = owned(dir);
    if dv[dv.len() - 1] != '/' {
        push_str(&mut r, "/");
    }
    push_str(&mut r, name);
    proof {
        assert(dv@.last() == dv@[dv.len() - 1]);
    }
    r
}

impl ProjectInfo {
    /// Detects the Convex project at `root` from what the file system shows of it: an error
    /// when there is no `convex/` directory; otherwise whether a schema (`schema.ts` or another
    /// script extension), an auth config (`auth.config.ts` or `.js`) and `convex.json` exist,
    /// the declared version of `convex` and the framework.
    pub fn detect(root: &str, listing: &ProjectListing) -> (r: Result<ProjectInfo, String>)
        ensures
            match r {
                Err(e) => !listing.convex_dir_exists && e@ == no_convex_dir_message(root@),
                Ok(info) => listing.convex_dir_exists && detected(info, root@, *listing),
            },
            r matches Ok(info) ==> (info.has_auth_config <==> string_views(
                listing.convex_entries@,
            ).contains("auth.config.ts"@) || string_views(listing.convex_entries@).contains(
                "auth.config.js"@,
            )),
    {
        if !listing.convex_dir_exists {
            let mut e = owned("No convex/ directory found in ");
            push_str(&mut e, root);
            return Err(e);
        }
        let convex_dir = join_path_string(root, "convex");
        let names = [
            "schema.ts",
            "schema.js",
            "schema.mts",
            "schema.cts",
            "schema.mjs",
            "schema.cjs",
        ];
        let mut has_schema = false;
        let mut i: usize = 0;
        proof {
            reveal_strlit("schema.ts");
            reveal_strlit("schema.js");
            reveal_strlit("schema.mts");
            reveal_strlit("schema.cts");
            reveal_strlit("schema.mjs");
            reveal_strlit("schema.cjs");
        }
        assert(names@.map_values(|s: &str| s@) =~= schema_file_names());
        while i < 6
            invariant
                i <= 6,
                names@.len() == 6,
                names@.map_values(|s: &str| s@) == schema_file_names(),
                has_schema == exists|j: int|
                    0 <= j < i && string_views(listing.convex_entries@).contains(
                        #[trigger] schema_file_names()[j],
                    ),
            decreases 6 - i,
        {
            assert(names@[i as int]@ == schema_file_names()[i as int]);
            if lists(&listing.convex_entries, names[i]) {
                has_schema = true;
            }
            i = i + 1;
        }
        let has_auth_config = lists(&listing.convex_entries, "auth.config.ts") || lists(
            &listing.convex_entries,
            "auth.config.js",
        );
        let has_convex_json = lists(&listing.root_entries, "convex.json");
        let (convex_version, framework) = match &listing.manifest {
            Some(m) => {
                let version = if table_lists(&m.dependencies, "convex") {
                    table_version(&m.dependencies, "convex")
                } else {
                    table_version(&m.dev_dependencies, "convex")
                };
                let framework = if table_lists(&m.dependencies, "next") || table_lists(
                    &m.dev_dependencies,
                    "next",
                ) {
                    Some(owned("nextjs"))
                } else if table_lists(&m.dependencies, "vite") || table_lists(
                    &m.dev_dependencies,
                    "vite",
                ) {
                    Some(owned("vite"))
                } else if table_lists(&m.dependencies, "@remix-run/node") || table_lists(
                    &m.dev_dependencies,
                    "@remix-run/node",
                ) {
                    Some(owned("remix"))
                } else {
                    None
                };
                (version, framework)
            },
            None => (None, None),
        };
        let info = ProjectInfo {
            root: owned(root),
            convex_dir,
            has_schema,
            has_auth_config,
            has_convex_json,
            convex_version,
            framework,
        };
        proof {
            law_detected_files(info, root@, *listing);
        }
        Ok(info)
    }
}

/// Detection finds an auth config exactly when `convex/` holds `auth.config.ts` or
/// `auth.config.js`, a schema exactly when it holds `schema.ts`, `schema.js`, `schema.mts`,
/// `schema.cts`, `schema.mjs` or `schema.cjs`, and `convex.json` exactly when the root holds it.
pub proof fn law_detected_files(info: ProjectInfo, root: Seq<char>, listing: ProjectListing)
    requires
        detected(info, root, listing),
    ensures
        info.has_auth_config <==> string_views(listing.convex_entries@).contains("auth.config.ts"@)
            || string_views(listing.convex_entries@).contains("auth.config.js"@),
        info.has_schema <==> string_views(listing.convex_entries@).contains("schema.ts"@)
            || string_views(listing.convex_entries@).contains("schema.js"@)
            || string_views(listing.convex_entries@).contains("schema.mts"@)
            || string_views(listing.convex_entries@).contains("schema.cts"@)
            || string_views(listing.convex_entries@).contains("schema.mjs"@)
            || string_views(listing.convex_entries@).contains("schema.cjs"@),
        info.has_convex_json <==> string_views(listing.root_entries@).contains("convex.json"@),
{
    let ns = schema_file_names();
    let es = string_views(listing.convex_entries@);
    if info.has_schema {
        let k = choose|k: int| 0 <= k < ns.len() && es.contains(#[trigger] ns[k]);
        assert(0 <= k < 6);
    }
    if es.contains("schema.ts"@) { assert(es.contains(ns[0])); }
    if es.contains("schema.js"@) { assert(es.contains(ns[1])); }
    if es.contains("schema.mts"@) { assert(es.contains(ns[2])); }
    if es.contains("schema.cts"@) { assert(es.contains(ns[3])); }
    if es.contains("schema.mjs"@) { assert(es.contains(ns[4])); }
    if es.contains("schema.cjs"@) { assert(es.contains(ns[5])); }
}


/// The position of the last `.` in `name`, or -1.
pub open spec fn last_dot(name: Seq<char>) -> int
    decreases name.len(),
{
    if name.len() == 0 {
        -1
    } else if name.last() == '.' {
        name.len() - 1
    } else {
        last_dot(name.drop_last())
    }
}

/// The extension of a file name, as `Path::extension` gives it: what follows the last `.`,
/// unless that dot begins the name or there is none.
pub open spec fn extension_of(name: Seq<char>) -> Option<Seq<char>> {
    if last_dot(name) > 0 {
        Some(name.skip(last_dot(name) + 1))
    } else {
        None
    }
}

/// The script extensions that the tool scans.
pub open spec fn supported_extension(ext: Seq<char>) -> bool {
    ||| ext == "ts"@
    ||| ext == "tsx"@
    ||| ext == "js"@
    ||| ext == "jsx"@
    ||| ext == "mts"@
    ||| ext == "cts"@
    ||| ext == "mjs"@
    ||| ext == "cjs"@
}

/// `rel` lies in a directory named `_generated`.
pub open spec fn in_generated_dir(rel: Seq<char>) -> bool {
    has_prefix(rel, "_generated/"@) || has_infix(rel, "/_generated/"@)
}

/// A file found under the Convex directory is scanned: it is not inside a `_generated`
/// directory, it has a script extension and no ignore pattern covers it.
pub open spec fn scanned(info: ProjectInfo, config: Config, path: Seq<char>) -> bool {
    &&& !in_generated_dir(relative_path(info.convex_dir@, path))
    &&& match extension_of(last_component(path)) {
        Some(e) => supported_extension(e),
        None => false,
    }
    &&& !file_ignored(config.ignore.files@, info.root@, path)
}

/// The filter of [`ProjectInfo::discover_files`].
pub open spec fn scan_filter(info: ProjectInfo, config: Config) -> spec_fn(Seq<char>) -> bool {
    |p: Seq<char>| scanned(info, config, p)
}

/// A path as itself.
pub open spec fn same_path() -> spec_fn(Seq<char>) -> Seq<char> {
    |p: Seq<char>| p
}

/// The rank of a character when ordering paths: the separator comes before every other
/// character, so that paths order component by component.
pub open spec fn path_rank(c: char) -> int {
    if c == '/' {
        0
    } else {
        (c as u32) as int + 1
    }
}

/// Path order: component by component, each component in code point order.
pub open spec fn path_lt(a: Seq<char>, b: Seq<char>) -> bool
    decreases a.len(),
{
    if a.len() == 0 {
        b.len() > 0
    } else if b.len() == 0 {
        false
    } else if a[0] != b[0] {
        path_rank(a[0]) < path_rank(b[0])
    } else {
        path_lt(a.drop_first(), b.drop_first())
    }
}

/// Inserts `p` before the first path it precedes.
pub open spec fn insert_path(ps: Seq<Seq<char>>, p: Seq<char>) -> Seq<Seq<char>>
    decreases ps.len(),
{
    if ps.len() == 0 {
        seq![p]
    } else if path_lt(p, ps[0]) {
        seq![p] + ps
    } else {
        seq![ps[0]] + insert_path(ps.drop_first(), p)
    }
}

/// The paths in path order; equal paths keep their order.
pub open spec fn sort_by_path(ps: Seq<Seq<char>>) -> Seq<Seq<char>>
    decreases ps.len(),
{
    if ps.len() == 0 {
        Seq::empty()
    } else {
        insert_path(sort_by_path(ps.drop_last()), ps.last())
    }
}

/// Whether `a` comes before `b` in path order.
pub fn path_before(a: &str, b: &str) -> (r: bool)
    ensures
        r == path_lt(a@, b@),
{
    let av = chars_of(a);
    let bv = chars_of(b);
    let mut i: usize = 0;
    assert(av@.skip(0) =~= av@);
    assert(bv@.skip(0) =~= bv@);
    while i < av.len() && i < bv.len() && av[i] == bv[i]
        invariant
            i <= av.len(),
            i <= bv.len(),
            av@ == a@,
            bv@ == b@,
            path_lt(a@, b@) == path_lt(av@.skip(i as int), bv@.skip(i as int)),
        decreases av.len() - i,
    {
        proof {
            assert(av@.skip(i as int).drop_first() =~= av@.skip(i + 1));
            assert(bv@.skip(i as int).drop_first() =~= bv@.skip(i + 1));
            assert(av@.skip(i as int)[0] == av@[i as int]);
            assert(bv@.skip(i as int)[0] == bv@[i as int]);
        }
        i = i + 1;
    }
    if i == av.len() {
        return i < bv.len();
    }
    if i == bv.len() {
        return false;
    }
    proof {
        assert(av@.skip(i as int)[0] == av@[i as int]);
        assert(bv@.skip(i as int)[0] == bv@[i as int]);
    }
    let x = av[i];
    let y = bv[i];
    if x == '/' {
        true
    } else if y == '/' {
        false
    } else {
        (x as u32) < (y as u32)
    }
}

proof fn lemma_insert_path_at(ps: Seq<Seq<char>>, p: Seq<char>, k: int)
    requires
        0 <= k <= ps.len(),
        forall|j: int| 0 <= j < k ==> !path_lt(p, #[trigger] ps[j]),
        k == ps.len() || path_lt(p, ps[k]),
    ensures
        insert_path(ps, p) == ps.take(k) + seq![p] + ps.skip(k),
    decreases ps.len(),
{
    if ps.len() == 0 {
        assert(ps.take(k) + seq![p] + ps.skip(k) =~= seq![p]);
    } else if k == 0 {
        assert(ps.take(k) + seq![p] + ps.skip(k) =~= seq![p] + ps);
    } else {
        assert(!path_lt(p, ps[0]));
        let rest = ps.drop_first();
        assert forall|j: int| 0 <= j < k - 1 implies !path_lt(p, #[trigger] rest[j]) by {
            assert(rest[j] == ps[j + 1]);
        }
        if k < ps.len() {
            assert(rest[k - 1] == ps[k]);
        }
        lemma_insert_path_at(rest, p, k - 1);
        assert(seq![ps[0]] + (rest.take(k - 1) + seq![p] + rest.skip(k - 1)) =~= ps.take(k) + seq![p]
            + ps.skip(k));
    }
}

/// Inserts `s` into the path-ordered vector `v` as `insert_path` does.
fn insert_path_string(v: &mut Vec<String>, s: String)
    ensures
        string_views(final(v)@) == insert_path(string_views(old(v)@), s@),
{
    let mut k: usize = 0;
    while k < v.len() && !path_before(s.as_str(), v[k].as_str())
        invariant
            k <= v.len(),
            forall|j: int| 0 <= j < k ==> !path_lt(s@, #[trigger] string_views(v@)[j]),
        decreases v.len() - k,
    {
        k = k + 1;
    }
    proof {
        lemma_insert_path_at(string_views(v@), s@, k as int);
    }
    let ghost before = v@;
    v.insert(k, s);
    proof {
        assert(string_views(v@) =~= string_views(before).take(k as int) + seq![s@] + string_views(
            before,
        ).skip(k as int));
    }
}

/// The extension of a file name.
fn extension(name: &str) -> (r: Option<String>)
    ensures
        opt_view(r) == extension_of(name@),
{
    let nv = chars_of(name);
    let mut k: usize = nv.len();
    assert(nv@.take(k as int) =~= nv@);
    while k > 0 && nv[k - 1] != '.'
        invariant
            k <= nv.len(),
            nv@ == name@,
            last_dot(name@) == last_dot(nv@.take(k as int)),
        decreases k,
    {
        proof {
            assert(nv@.take(k as int).drop_last() =~= nv@.take(k - 1));
            assert(nv@.take(k as int).last() == nv@[k - 1]);
        }
        k = k - 1;
    }
    proof {
        if k > 0 {
            assert(nv@.take(k as int).last() == nv@[k - 1]);
            assert(last_dot(name@) == k - 1);
        } else {
            assert(nv@.take(0) =~= Seq::<char>::empty());
            assert(last_dot(name@) == -1);
        }
    }
    if k > 1 {
        Some(skip_chars(name, k))
    } else {
        None
    }
}

/// Whether a file extension is one the tool scans.
fn is_supported_extension(ext: &str) -> (b: bool)
    ensures
        b == supported_extension(ext@),
{
    str_eq(ext, "ts") || str_eq(ext, "tsx") || str_eq(ext, "js") || str_eq(ext, "jsx") || str_eq(
        ext,
        "mts",
    ) || str_eq(ext, "cts") || str_eq(ext, "mjs") || str_eq(ext, "cjs")
}

impl ProjectInfo {
    /// Whether a file found under the Convex directory is scanned.
    pub fn is_scanned(&self, config: &Config, path: &str) -> (b: bool)
        ensures
            b == scanned(*self, *config, path@),
    {
        let rel = relative_to(self.convex_dir.as_str(), path);
        if starts_with(rel.as_str(), "_generated/") || contains(rel.as_str(), "/_generated/") {
            return false;
        }
        let name = file_name_of(path);
        let ok = match extension(name.as_str()) {
            Some(e) => is_supported_extension(e.as_str()),
            None => false,
        };
        if !ok {
            return false;
        }
        !config.is_file_ignored(self.root.as_str(), path)
    }

    /// The source files to scan among the files `found` under the Convex directory (all of
    /// them, at any depth), in path order: those outside `_generated` directories, with a
    /// script extension, that no ignore pattern of `config` covers.
    pub fn discover_files(&self, config: &Config, found: &Vec<String>) -> (r: Vec<String>)
        ensures
            string_views(r@) == sort_by_path(
                select_map(string_views(found@), scan_filter(*self, *config), same_path()),
            ),
    {
        let ghost keep = scan_filter(*self, *config);
        let ghost id = same_path();
        let ghost fs = string_views(found@);
        let mut files: Vec<String> = Vec::new();
        let n = found.len();
        let mut i: usize = 0;
        while i < n
            invariant
                i <= n,
                n == found.len(),
                fs == string_views(found@),
                keep == scan_filter(*self, *config),
                id == same_path(),
                string_views(files@) == sort_by_path(select_map(fs.take(i as int), keep, id)),
            decreases n - i,
        {
            proof {
                lemma_select_map_step(fs, i as int, keep, id);
                assert(fs[i as int] == found@[i as int]@);
            }
            let ghost sel = select_map(fs.take(i as int), keep, id);
            let hit = self.is_scanned(config, found[i].as_str());
            assert(hit == scanned(*self, *config, fs[i as int]));
            if hit {
                proof {
                    assert(keep(fs[i as int]));
                    assert(id(fs[i as int]) == fs[i as int]);
                    assert(sel.push(fs[i as int]).drop_last() =~= sel);
                    assert(sel.push(fs[i as int]).last() == fs[i as int]);
                    assert(sort_by_path(sel.push(fs[i as int])) == insert_path(sort_by_path(sel), fs[i as int]));
                }
                insert_path_string(&mut files, owned(found[i].as_str()));
            } else {
                assert(!keep(fs[i as int]));
            }
            i = i + 1;
        }
        proof {
            assert(fs.take(n as int) =~= fs);
        }
        files
    }
}


/// The paths are in path order: no path comes before an earlier one.
pub open spec fn path_sorted(ps: Seq<Seq<char>>) -> bool {
    forall|i: int, j: int| 0 <= i < j < ps.len() ==> !path_lt(#[trigger] ps[j], #[trigger] ps[i])
}

proof fn lemma_path_lt_irreflexive(a: Seq<char>)
    ensures
        !path_lt(a, a),
    decreases a.len(),
{
    if a.len() > 0 {
        lemma_path_lt_irreflexive(a.drop_first());
    }
}

proof fn lemma_path_lt_transitive(a: Seq<char>, b: Seq<char>, c: Seq<char>)
    requires
        path_lt(a, b),
        path_lt(b, c),
    ensures
        path_lt(a, c),
    decreases a.len(),
{
    if a.len() > 0 && a[0] == b[0] && b[0] == c[0] {
        lemma_path_lt_transitive(a.drop_first(), b.drop_first(), c.drop_first());
    }
}

proof fn lemma_insert_path_members(ps: Seq<Seq<char>>, p: Seq<char>, x: Seq<char>)
    requires
        insert_path(ps, p).contains(x),
    ensures
        x == p || ps.contains(x),
    decreases ps.len(),
{
    let r = insert_path(ps, p);
    let k = choose|k: int| 0 <= k < r.len() && r[k] == x;
    if ps.len() == 0 {
    } else if path_lt(p, ps[0]) {
        if k > 0 {
            assert(ps[k - 1] == x);
        }
    } else {
        if k > 0 {
            let rest = insert_path(ps.drop_first(), p);
            assert(rest[k - 1] == x);
            lemma_insert_path_members(ps.drop_first(), p, x);
            if ps.drop_first().contains(x) {
                let t = choose|t: int| 0 <= t < ps.drop_first().len() && ps.drop_first()[t] == x;
                assert(ps[t + 1] == x);
            }
        } else {
            assert(ps[0] == x);
        }
    }
}

/// Inserting into sorted paths keeps them sorted and adds exactly the one path.
pub proof fn lemma_insert_path_sorted(ps: Seq<Seq<char>>, p: Seq<char>)
    requires
        path_sorted(ps),
    ensures
        path_sorted(insert_path(ps, p)),
        insert_path(ps, p).to_multiset() == ps.to_multiset().insert(p),
    decreases ps.len(),
{
    broadcast use vstd::seq_lib::group_to_multiset_ensures;
    let r = insert_path(ps, p);
    if ps.len() == 0 {
        assert(r =~= seq![p]);
        assert(seq![p] =~= Seq::<Seq<char>>::empty().push(p));
        assert(Seq::<Seq<char>>::empty().to_multiset() =~= vstd::multiset::Multiset::empty());
    } else if path_lt(p, ps[0]) {
        vstd::seq_lib::lemma_multiset_commutative(seq![p], ps);
        assert(seq![p] =~= Seq::<Seq<char>>::empty().push(p));
        assert(Seq::<Seq<char>>::empty().to_multiset() =~= vstd::multiset::Multiset::empty());
        assert(seq![p].to_multiset() =~= vstd::multiset::Multiset::empty().insert(p));
        assert(r.to_multiset() =~= ps.to_multiset().insert(p));
        assert forall|i: int, j: int| 0 <= i < j < r.len() implies !path_lt(#[trigger] r[j], #[trigger] r[i]) by {
            if i == 0 {
                assert(r[j] == ps[j - 1]);
                if path_lt(ps[j - 1], p) {
                    lemma_path_lt_transitive(ps[j - 1], p, ps[0]);
                    if j - 1 == 0 {
                        lemma_path_lt_irreflexive(ps[0]);
                    }
                }
            } else {
                assert(r[i] == ps[i - 1]);
                assert(r[j] == ps[j - 1]);
            }
        }
    } else {
        let rest = ps.drop_first();
        assert(path_sorted(rest)) by {
            assert forall|i: int, j: int| 0 <= i < j < rest.len() implies !path_lt(#[trigger] rest[j], #[trigger] rest[i]) by {
                assert(rest[i] == ps[i + 1]);
                assert(rest[j] == ps[j + 1]);
            }
        }
        lemma_insert_path_sorted(rest, p);
        let tail = insert_path(rest, p);
        assert(r == seq![ps[0]] + tail);
        vstd::seq_lib::lemma_multiset_commutative(seq![ps[0]], tail);
        vstd::seq_lib::lemma_multiset_commutative(seq![ps[0]], rest);
        assert(ps =~= seq![ps[0]] + rest);
        assert(r.to_multiset() =~= ps.to_multiset().insert(p));
        assert forall|i: int, j: int| 0 <= i < j < r.len() implies !path_lt(#[trigger] r[j], #[trigger] r[i]) by {
            if i == 0 {
                assert(r[i] == ps[0]);
                assert(r[j] == tail[j - 1]);
                assert(tail.contains(tail[j - 1]));
                lemma_insert_path_members(rest, p, tail[j - 1]);
                if rest.contains(tail[j - 1]) {
                    let t = choose|t: int| 0 <= t < rest.len() && rest[t] == tail[j - 1];
                    assert(ps[t + 1] == tail[j - 1]);
                }
            } else {
                assert(r[i] == tail[i - 1]);
                assert(r[j] == tail[j - 1]);
            }
        }
    }
}

/// Sorting by path gives the same paths, in path order.
pub proof fn lemma_sort_by_path_sorted(ps: Seq<Seq<char>>)
    ensures
        path_sorted(sort_by_path(ps)),
        sort_by_path(ps).to_multiset() == ps.to_multiset(),
    decreases ps.len(),
{
    broadcast use vstd::seq_lib::group_to_multiset_ensures;
    if ps.len() == 0 {
        assert(sort_by_path(ps) =~= ps);
    } else {
        lemma_sort_by_path_sorted(ps.drop_last());
        lemma_insert_path_sorted(sort_by_path(ps.drop_last()), ps.last());
        assert(ps =~= ps.drop_last().push(ps.last()));
    }
}

/// The files [`ProjectInfo::discover_files`] returns are in path order, and they are exactly
/// the scanned ones among those found, each as often as it was found.
pub proof fn lemma_discovered_files_sorted(info: ProjectInfo, config: Config, found: Seq<Seq<char>>)
    ensures
        path_sorted(sort_by_path(select_map(found, scan_filter(info, config), same_path()))),
        sort_by_path(select_map(found, scan_filter(info, config), same_path())).to_multiset()
            == select_map(found, scan_filter(info, config), same_path()).to_multiset(),
{
    lemma_sort_by_path_sorted(select_map(found, scan_filter(info, config), same_path()));
}

/// Selecting from distinct paths gives distinct paths.
proof fn lemma_selected_paths_distinct(found: Seq<Seq<char>>, keep: spec_fn(Seq<char>) -> bool)
    requires
        found.no_duplicates(),
    ensures
        select_map(found, keep, same_path()).no_duplicates(),
    decreases found.len(),
{
    if found.len() > 0 {
        let init = found.drop_last();
        assert(init.no_duplicates()) by {
            assert forall|i: int, j: int| 0 <= i < init.len() && 0 <= j < init.len() && i != j implies init[i] != init[j] by {
                assert(init[i] == found[i] && init[j] == found[j]);
            }
        }
        lemma_selected_paths_distinct(init, keep);
        let prev = select_map(init, keep, same_path());
        if keep(found.last()) {
            assert forall|k: int| 0 <= k < prev.len() implies prev[k] != found.last() by {
                lemma_select_map_members(init, keep, same_path(), k);
                let j = choose|j: int| 0 <= j < init.len() && keep(init[j]) && prev[k] == same_path()(init[j]);
                assert(init[j] == found[j]);
                assert(found[j] != found[found.len() - 1]);
            }
            let next = prev.push(found.last());
            assert forall|i: int, j: int| 0 <= i < next.len() && 0 <= j < next.len() && i != j implies next[i] != next[j] by {
                if i < prev.len() && j < prev.len() {
                    assert(next[i] == prev[i] && next[j] == prev[j]);
                } else if i < prev.len() {
                    assert(next[i] == prev[i]);
                } else {
                    assert(next[j] == prev[j]);
                }
            }
        }
    }
}

/// A scan lists each file once, where the files found under the Convex directory are listed
/// once each.
pub proof fn law_discovered_files_distinct(info: ProjectInfo, config: Config, found: Seq<Seq<char>>)
    requires
        found.no_duplicates(),
    ensures
        sort_by_path(select_map(found, scan_filter(info, config), same_path())).no_duplicates(),
{
    let sel = select_map(found, scan_filter(info, config), same_path());
    lemma_selected_paths_distinct(found, scan_filter(info, config));
    lemma_discovered_files_sorted(info, config, found);
    sel.lemma_multiset_has_no_duplicates();
    sort_by_path(sel).lemma_multiset_has_no_duplicates_conv();
}

} // verus!
