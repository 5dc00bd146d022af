//! Where the launcher keeps its files: the home directory, the managed data
//! directory and the product checkout, and the directories provisioned under
//! the data directory. Paths are Unix paths held as `String`s; they are
//! joined the way `PathBuf::push` does on Unix.
use vstd::prelude::*;

verus! {

/// `base` joined with `comp` on Unix: an absolute `comp` replaces `base`;
/// otherwise `comp` is appended, with a `/` in between unless `base` is empty
/// or already ends with one.
pub open spec fn spec_join(base: Seq<char>, comp: Seq<char>) -> Seq<char> {
    if is_absolute(comp) {
        comp
    } else if base.len() > 0 && base.last() != '/' {
        base + seq!['/'] + comp
    } else {
        base + comp
    }
}

/// A Unix path is absolute when it starts with `/`.
pub open spec fn is_absolute(p: Seq<char>) -> bool {
    p.len() > 0 && p[0] == '/'
}

/// Joins `comp` onto `base`.
pub fn join_path(base: &str, comp: &str) -> (joined: String)
    ensures
        joined@ == spec_join(base@, comp@),
{
    let comp_len = comp.unicode_len();
    if comp_len > 0 && comp.get_char(0) == '/' {
        return String::from_str(comp);
    }
    let base_len = base.unicode_len();
    let mut joined = String::from_str(base);
    if base_len > 0 && base.get_char(base_len - 1) != '/' {
        proof {
            reveal_strlit("/");
        }
        joined.append("/");
    }
    joined.append(comp);
    joined
}

/// Directory used when `HOME` is not set.
pub const FALLBACK_HOME: &'static str = "/tmp";

/// Data directory under the home directory when `BRAINMUX_HOME` is not set.
pub const DATA_DIR_NAME: &'static str = ".brainmux";

/// Product checkout under the home directory when `BRAINMUX_REPO` is not set.
pub const DEFAULT_REPO: &'static str = "Development/Projects/brainmux/brainmux";

/// The home directory: the value of `HOME`, or `/tmp` when it is unset.
pub open spec fn spec_home(env_home: Option<Seq<char>>) -> Seq<char> {
    match env_home {
        Some(h) => h,
        None => FALLBACK_HOME@,
    }
}

/// The data directory: `BRAINMUX_HOME`, or `.brainmux` under the home directory.
pub open spec fn spec_bmux_home(env_bmux_home: Option<Seq<char>>, home: Seq<char>) -> Seq<char> {
    match env_bmux_home {
        Some(d) => d,
        None => spec_join(home, DATA_DIR_NAME@),
    }
}

/// The product checkout: `BRAINMUX_REPO`, or the default checkout under the home directory.
pub open spec fn spec_repo(env_repo: Option<Seq<char>>, home: Seq<char>) -> Seq<char> {
    match env_repo {
        Some(d) => d,
        None => spec_join(home, DEFAULT_REPO@),
    }
}

/// Resolves the home directory from the value of `HOME` (`None` when unset).
pub fn home(env_home: Option<String>) -> (dir: String)
    ensures
        dir@ == spec_home(env_home.deep_view()),
{
    match env_home {
        Some(h) => h,
        None => String::from_str(FALLBACK_HOME),
    }
}

/// Resolves the data directory from the value of `BRAINMUX_HOME` and the home directory.
pub fn bmux_home(env_bmux_home: Option<String>, home: &str) -> (dir: String)
    ensures
        dir@ == spec_bmux_home(env_bmux_home.deep_view(), home@),
{
    match env_bmux_home {
        Some(d) => d,
        None => join_path(home, DATA_DIR_NAME),
    }
}

/// Resolves the product checkout from the value of `BRAINMUX_REPO` and the home directory.
pub fn repo(env_repo: Option<String>, home: &str) -> (dir: String)
    ensures
        dir@ == spec_repo(env_repo.deep_view(), home@),
{
    match env_repo {
        Some(d) => d,
        None => join_path(home, DEFAULT_REPO),
    }
}

/// The warning printed when a directory falls back on the home directory and
/// `HOME` is unset.
pub const HOME_MISSING: &'static str = "UYARI: HOME tanımlı değil → /tmp kullanılıyor";

/// Whether resolving a directory whose override variable holds
/// `env_override` falls back on the home directory and finds `HOME` unset, so
/// that the `/tmp` fallback is used (and warned about).
pub fn home_fallback_used(env_override: &Option<String>, env_home: &Option<String>) -> (b: bool)
    ensures
        b == (env_override is None && env_home is None),
{
    env_override.is_none() && env_home.is_none()
}

/// The directories provisioned under the data directory, the data directory
/// itself (the empty name) first.
pub open spec fn provisioned_subdirs() -> Seq<Seq<char>> {
    seq![""@, "logs"@, "models"@, "knowledge"@, "output"@, "runtime"@]
}

/// The provisioned directories, each joined onto `base`.
pub open spec fn spec_provision_dirs(base: Seq<char>) -> Seq<Seq<char>> {
    provisioned_subdirs().map_values(|sub: Seq<char>| spec_join(base, sub))
}

/// The directories to create (each with its parents) under the data
/// directory `base`, in the order they are created.
pub fn provision_dirs(base: &str) -> (dirs: Vec<String>)
    ensures
        dirs.deep_view() == spec_provision_dirs(base@),
{
    let mut dirs: Vec<String> = Vec::new();
    dirs.push(join_path(base, ""));
    dirs.push(join_path(base, "logs"));
    dirs.push(join_path(base, "models"));
    dirs.push(join_path(base, "knowledge"));
    dirs.push(join_path(base, "output"));
    dirs.push(join_path(base, "runtime"));
    assert(dirs.deep_view() =~= spec_provision_dirs(base@));
    dirs
}

/// Joining a relative path onto `base` keeps `base` as a prefix: what is
/// joined stays under `base`.
pub proof fn lemma_join_relative_stays_under(base: Seq<char>, comp: Seq<char>)
    requires
        !is_absolute(comp),
    ensures
        base.is_prefix_of(spec_join(base, comp)),
{
    let j = spec_join(base, comp);
    if base.len() > 0 && base.last() != '/' {
        assert(j.subrange(0, base.len() as int) =~= base);
    } else {
        assert(j.subrange(0, base.len() as int) =~= base);
    }
}

/// Joining an absolute path replaces the base altogether.
pub proof fn lemma_join_absolute_replaces(base: Seq<char>, comp: Seq<char>)
    requires
        is_absolute(comp),
    ensures
        spec_join(base, comp) == comp,
{
}

/// Every provisioned directory lies under the data directory.
pub proof fn lemma_provisioned_dirs_under_base(base: Seq<char>)
    ensures
        spec_provision_dirs(base).len() == 6,
        forall|i: int| 0 <= i < 6 ==> base.is_prefix_of(#[trigger] spec_provision_dirs(base)[i]),
{
    reveal_strlit("");
    reveal_strlit("logs");
    reveal_strlit("models");
    reveal_strlit("knowledge");
    reveal_strlit("output");
    reveal_strlit("runtime");
    assert forall|i: int| 0 <= i < 6 implies base.is_prefix_of(
        #[trigger] spec_provision_dirs(base)[i],
    ) by {
        let sub = provisioned_subdirs()[i];
        assert(!is_absolute(sub));
        lemma_join_relative_stays_under(base, sub);
    }
}

/// Without `BRAINMUX_HOME` the data directory lies under the home directory.
pub proof fn lemma_default_data_dir_under_home(home: Seq<char>)
    ensures
        home.is_prefix_of(spec_bmux_home(None, home)),
{
    reveal_strlit(".brainmux");
    lemma_join_relative_stays_under(home, DATA_DIR_NAME@);
}

} // verus!
