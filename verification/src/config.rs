//! The resolved configuration, the command-line options that override it, and where each
//! effective value came from.

use vstd::prelude::*;

use crate::fzf::SelectorCdSurface;

verus! {

#[derive(Clone, Debug, PartialEq, Eq)]
pub struct PathsConfig {
    pub worktree_root: String,
}

#[derive(Clone, Debug, PartialEq, Eq)]
pub struct GitConfig {
    pub base_branch: Option<String>,
    pub base_remote: String,
}

#[derive(Clone, Debug, PartialEq, Eq)]
pub struct GithubConfig {
    pub enabled: bool,
}

#[derive(Clone, Debug, PartialEq, Eq)]
pub struct HooksConfig {
    pub enabled: bool,
    pub timeout_ms: u64,
}

#[derive(Clone, Debug, PartialEq, Eq)]
pub struct LocksConfig {
    pub timeout_ms: u64,
    pub stale_lock_ttl_seconds: u64,
}

#[derive(Clone, Debug, PartialEq, Eq)]
pub struct FzfConfig {
    pub extra_args: Vec<String>,
}

#[derive(Clone, Debug, PartialEq, Eq)]
pub struct SelectorCdConfig {
    pub prompt: String,
    pub surface: SelectorCdSurface,
    pub tmux_popup_opts: String,
    pub fzf: FzfConfig,
}

/// The configuration after all files were merged.
#[derive(Clone, Debug, PartialEq, Eq)]
pub struct ResolvedConfig {
    pub paths: PathsConfig,
    pub git: GitConfig,
    pub github: GithubConfig,
    pub hooks: HooksConfig,
    pub locks: LocksConfig,
    pub list_columns: Vec<String>,
    pub selector_cd: SelectorCdConfig,
}

/// The options every command accepts.
#[derive(Clone, Debug, PartialEq, Eq)]
pub struct CommonOptions {
    pub json: bool,
    pub hooks: bool,
    pub no_hooks: bool,
    pub gh: bool,
    pub no_gh: bool,
    pub strict_post_hooks: bool,
    pub hook_timeout_ms: Option<u64>,
    pub lock_timeout_ms: Option<u64>,
    pub prompt: Option<String>,
    pub fzf_args: Vec<String>,
}

/// The hook switch after the command line: `--hooks` enables hooks, `--no-hooks` disables
/// them, and without either the configured value stays.
pub open spec fn hooks_enabled_spec(common: CommonOptions, configured: bool) -> bool {
    if common.hooks {
        true
    } else if common.no_hooks {
        false
    } else {
        configured
    }
}

/// The PR-lookup switch after the command line: `--gh` enables the lookup, `--no-gh`
/// disables it, and without either the configured value stays.
pub open spec fn gh_enabled_spec(common: CommonOptions, configured: bool) -> bool {
    if common.gh {
        true
    } else if common.no_gh {
        false
    } else {
        configured
    }
}

/// Whether a mutation may run its hooks: only when the configuration enables them and
/// `--no-hooks` is absent; `--hooks` cannot force hooks that the configuration disables.
pub open spec fn mutation_hooks_spec(common: CommonOptions, configured: bool) -> bool {
    configured && !common.no_hooks
}

impl CommonOptions {
    pub fn hooks_enabled(&self, configured: bool) -> (enabled: bool)
        ensures
            enabled == hooks_enabled_spec(*self, configured),
    {
        if self.hooks {
            true
        } else if self.no_hooks {
            false
        } else {
            configured
        }
    }

    pub fn gh_enabled(&self, configured: bool) -> (enabled: bool)
        ensures
            enabled == gh_enabled_spec(*self, configured),
    {
        if self.gh {
            true
        } else if self.no_gh {
            false
        } else {
            configured
        }
    }

    pub fn mutation_hooks(&self, configured: bool) -> (enabled: bool)
        ensures
            enabled == mutation_hooks_spec(*self, configured),
    {
        configured && !self.no_hooks
    }
}

pub open spec fn strings_view(v: Seq<String>) -> Seq<Seq<char>> {
    v.map_values(|s: String| s@)
}

/// The configuration with the command-line overrides applied: the hook and PR switches,
/// both timeouts and the prompt replace the configured values when given, and the fzf
/// arguments are appended to the configured ones. Everything else stays.
pub open spec fn with_cli_values(old: ResolvedConfig, new: ResolvedConfig, common: CommonOptions) -> bool {
    &&& new.paths == old.paths
    &&& new.git == old.git
    &&& new.github.enabled == gh_enabled_spec(common, old.github.enabled)
    &&& new.hooks.enabled == hooks_enabled_spec(common, old.hooks.enabled)
    &&& new.hooks.timeout_ms == match common.hook_timeout_ms {
        Some(v) => v,
        None => old.hooks.timeout_ms,
    }
    &&& new.locks.timeout_ms == match common.lock_timeout_ms {
        Some(v) => v,
        None => old.locks.timeout_ms,
    }
    &&& new.locks.stale_lock_ttl_seconds == old.locks.stale_lock_ttl_seconds
    &&& new.list_columns == old.list_columns
    &&& new.selector_cd.prompt@ == match common.prompt {
        Some(p) => p@,
        None => old.selector_cd.prompt@,
    }
    &&& new.selector_cd.surface == old.selector_cd.surface
    &&& new.selector_cd.tmux_popup_opts == old.selector_cd.tmux_popup_opts
    &&& strings_view(new.selector_cd.fzf.extra_args@) == strings_view(old.selector_cd.fzf.extra_args@)
        + strings_view(common.fzf_args@)
}

pub fn apply_cli_values(config: &mut ResolvedConfig, common: &CommonOptions)
    ensures
        with_cli_values(*old(config), *final(config), *common),
{
    config.hooks.enabled = common.hooks_enabled(config.hooks.enabled);
    config.github.enabled = common.gh_enabled(config.github.enabled);
    match common.hook_timeout_ms {
        Some(value) => {
            config.hooks.timeout_ms = value;
        },
        None => {},
    }
    match common.lock_timeout_ms {
        Some(value) => {
            config.locks.timeout_ms = value;
        },
        None => {},
    }
    match &common.prompt {
        Some(value) => {
            config.selector_cd.prompt = value.clone();
        },
        None => {},
    }
    let mut i: usize = 0;
    let ghost start = strings_view(config.selector_cd.fzf.extra_args@);
    while i < common.fzf_args.len()
        invariant
            i <= common.fzf_args@.len(),
            strings_view(config.selector_cd.fzf.extra_args@) == start + strings_view(common.fzf_args@).take(i as int),
            config.paths == old(config).paths,
            config.git == old(config).git,
            config.github.enabled == gh_enabled_spec(*common, old(config).github.enabled),
            config.hooks.enabled == hooks_enabled_spec(*common, old(config).hooks.enabled),
            config.hooks.timeout_ms == match common.hook_timeout_ms {
                Some(v) => v,
                None => old(config).hooks.timeout_ms,
            },
            config.locks.timeout_ms == match common.lock_timeout_ms {
                Some(v) => v,
                None => old(config).locks.timeout_ms,
            },
            config.locks.stale_lock_ttl_seconds == old(config).locks.stale_lock_ttl_seconds,
            config.list_columns == old(config).list_columns,
            config.selector_cd.prompt@ == match common.prompt {
                Some(p) => p@,
                None => old(config).selector_cd.prompt@,
            },
            config.selector_cd.surface == old(config).selector_cd.surface,
            config.selector_cd.tmux_popup_opts == old(config).selector_cd.tmux_popup_opts,
            start == strings_view(old(config).selector_cd.fzf.extra_args@),
        decreases common.fzf_args.len() - i,
    {
        let ghost before = strings_view(config.selector_cd.fzf.extra_args@);
        config.selector_cd.fzf.extra_args.push(common.fzf_args[i].clone());
        assert(strings_view(config.selector_cd.fzf.extra_args@) =~= before.push(common.fzf_args@[i as int]@));
        assert(strings_view(common.fzf_args@).take(i + 1) =~= strings_view(common.fzf_args@).take(i as int).push(
            common.fzf_args@[i as int]@,
        ));
        i = i + 1;
    }
    assert(strings_view(common.fzf_args@).take(common.fzf_args@.len() as int) =~= strings_view(common.fzf_args@));
}

/// Where a configuration value came from.
#[derive(Clone, Debug, PartialEq, Eq)]
pub enum ConfigSource {
    Default,
    File { path: String },
    CommandLine { argument: String },
}

pub enum SourceView {
    Default,
    File(Seq<char>),
    CommandLine(Seq<char>),
}

pub open spec fn source_view(s: ConfigSource) -> SourceView {
    match s {
        ConfigSource::Default => SourceView::Default,
        ConfigSource::File { path } => SourceView::File(path@),
        ConfigSource::CommandLine { argument } => SourceView::CommandLine(argument@),
    }
}

pub open spec fn source_list_view(s: Seq<ConfigSource>) -> Seq<SourceView> {
    s.map_values(|c: ConfigSource| source_view(c))
}

pub open spec fn sources_view(s: Seq<(String, Vec<ConfigSource>)>) -> Seq<(Seq<char>, Seq<SourceView>)> {
    s.map_values(|e: (String, Vec<ConfigSource>)| (e.0@, source_list_view(e.1@)))
}

/// The value of the first entry for `key`.
pub open spec fn assoc_get<V>(d: Seq<(Seq<char>, V)>, key: Seq<char>) -> Option<V>
    decreases d.len(),
{
    if d.len() == 0 {
        None
    } else if d[0].0 == key {
        Some(d[0].1)
    } else {
        assoc_get(d.drop_first(), key)
    }
}

/// The list with `key` set to `value`: the first entry for `key` replaced in place, or a
/// new entry appended.
pub open spec fn assoc_set<V>(d: Seq<(Seq<char>, V)>, key: Seq<char>, value: V) -> Seq<(Seq<char>, V)>
    decreases d.len(),
{
    if d.len() == 0 {
        seq![(key, value)]
    } else if d[0].0 == key {
        d.update(0, (key, value))
    } else {
        seq![d[0]] + assoc_set(d.drop_first(), key, value)
    }
}

/// A configuration with the files it was read from and the source of each value.
#[derive(Clone, Debug, PartialEq, Eq)]
pub struct LoadedConfig {
    pub config: ResolvedConfig,
    pub loaded_files: Vec<String>,
    pub sources: Vec<(String, Vec<ConfigSource>)>,
}

proof fn lemma_assoc_set_at<V>(d: Seq<(Seq<char>, V)>, i: int, key: Seq<char>, value: V)
    requires
        0 <= i < d.len(),
        d[i].0 == key,
        forall|j: int| 0 <= j < i ==> d[j].0 != key,
    ensures
        assoc_set(d, key, value) == d.update(i, (key, value)),
    decreases i,
{
    if i > 0 {
        lemma_assoc_set_at(d.drop_first(), i - 1, key, value);
        assert(assoc_set(d, key, value) =~= d.update(i, (key, value)));
    }
}

proof fn lemma_assoc_set_absent<V>(d: Seq<(Seq<char>, V)>, key: Seq<char>, value: V)
    requires
        forall|j: int| 0 <= j < d.len() ==> d[j].0 != key,
    ensures
        assoc_set(d, key, value) == d.push((key, value)),
    decreases d.len(),
{
    if d.len() > 0 {
        lemma_assoc_set_absent(d.drop_first(), key, value);
        assert(assoc_set(d, key, value) =~= d.push((key, value)));
    } else {
        assert(assoc_set(d, key, value) =~= d.push((key, value)));
    }
}

proof fn lemma_assoc_get_absent<V>(d: Seq<(Seq<char>, V)>, key: Seq<char>)
    requires
        forall|j: int| 0 <= j < d.len() ==> d[j].0 != key,
    ensures
        assoc_get(d, key) is None,
    decreases d.len(),
{
    if d.len() > 0 {
        lemma_assoc_get_absent(d.drop_first(), key);
    }
}

/// Replaces the sources recorded for `key`.
fn set_sources(sources: &mut Vec<(String, Vec<ConfigSource>)>, key: &str, value: Vec<ConfigSource>)
    ensures
        sources_view(final(sources)@) == assoc_set(sources_view(old(sources)@), key@, source_list_view(value@)),
{
    let ghost d = sources_view(sources@);
    let mut i: usize = 0;
    while i < sources.len()
        invariant
            i <= sources@.len(),
            d == sources_view(sources@),
            sources@ == old(sources)@,
            forall|j: int| 0 <= j < i ==> d[j].0 != key@,
        decreases sources.len() - i,
    {
        if crate::text::str_eq(sources[i].0.as_str(), key) {
            let entry = (key.to_owned(), value);
            proof {
                lemma_assoc_set_at(d, i as int, key@, source_list_view(value@));
                assert(sources_view(sources@.update(i as int, entry)) =~= d.update(
                    i as int,
                    (key@, source_list_view(value@)),
                ));
            }
            sources.set(i, entry);
            return;
        }
        i = i + 1;
    }
    let entry = (key.to_owned(), value);
    proof {
        lemma_assoc_set_absent(d, key@, source_list_view(value@));
        assert(sources_view(sources@.push(entry)) =~= d.push((key@, source_list_view(value@))));
    }
    sources.push(entry);
}

/// The sources recorded for `key`, copied.
fn sources_for(sources: &Vec<(String, Vec<ConfigSource>)>, key: &str) -> (found: Vec<ConfigSource>)
    ensures
        source_list_view(found@) == match assoc_get(sources_view(sources@), key@) {
            Some(list) => list,
            None => Seq::empty(),
        },
{
    let ghost d = sources_view(sources@);
    let mut i: usize = 0;
    assert(d.skip(0) =~= d);
    while i < sources.len()
        invariant
            i <= sources@.len(),
            d == sources_view(sources@),
            assoc_get(d, key@) == assoc_get(d.skip(i as int), key@),
        decreases sources.len() - i,
    {
        assert(d.skip(i as int)[0] == d[i as int]);
        if crate::text::str_eq(sources[i].0.as_str(), key) {
            let mut copy: Vec<ConfigSource> = Vec::new();
            let mut k: usize = 0;
            while k < sources[i].1.len()
                invariant
                    i < sources@.len(),
                    k <= sources@[i as int].1@.len(),
                    source_list_view(copy@) == source_list_view(sources@[i as int].1@).take(k as int),
                decreases sources@[i as int].1@.len() - k,
            {
                let item = match &sources[i].1[k] {
                    ConfigSource::Default => ConfigSource::Default,
                    ConfigSource::File { path } => ConfigSource::File { path: path.clone() },
                    ConfigSource::CommandLine { argument } => ConfigSource::CommandLine { argument: argument.clone() },
                };
                let ghost before = source_list_view(copy@);
                copy.push(item);
                assert(source_list_view(copy@) =~= before.push(source_view(sources@[i as int].1@[k as int])));
                assert(source_list_view(sources@[i as int].1@).take(k + 1) =~= source_list_view(sources@[i as int].1@).take(
                    k as int,
                ).push(source_view(sources@[i as int].1@[k as int])));
                k = k + 1;
            }
            assert(source_list_view(sources@[i as int].1@).take(sources@[i as int].1@.len() as int) =~= source_list_view(
                sources@[i as int].1@,
            ));
            return copy;
        }
        assert(d.skip(i as int).drop_first() =~= d.skip(i + 1));
        i = i + 1;
    }
    assert(d.skip(i as int).len() == 0);
    let empty: Vec<ConfigSource> = Vec::new();
    assert(source_list_view(empty@) =~= Seq::<SourceView>::empty());
    empty
}

/// The keys that command-line flags override, in the order they are recorded.
pub open spec fn override_keys() -> Seq<Seq<char>> {
    seq!["hooks.enabled"@, "github.enabled"@, "hooks.timeoutMs"@, "locks.timeoutMs"@, "selector.cd.prompt"@]
}

/// The command-line flag that set the `index`-th overridable key, if any.
pub open spec fn override_argument(common: CommonOptions, index: int) -> Option<Seq<char>> {
    if index == 0 {
        if common.hooks {
            Some("--hooks"@)
        } else if common.no_hooks {
            Some("--no-hooks"@)
        } else {
            None
        }
    } else if index == 1 {
        if common.gh {
            Some("--gh"@)
        } else if common.no_gh {
            Some("--no-gh"@)
        } else {
            None
        }
    } else if index == 2 {
        if common.hook_timeout_ms is Some {
            Some("--hook-timeout-ms"@)
        } else {
            None
        }
    } else if index == 3 {
        if common.lock_timeout_ms is Some {
            Some("--lock-timeout-ms"@)
        } else {
            None
        }
    } else if index == 4 {
        if common.prompt is Some {
            Some("--prompt"@)
        } else {
            None
        }
    } else {
        None
    }
}

/// The sources after the first `n` overridable keys: a flag that was given replaces the
/// sources of its key.
pub open spec fn overrides_from(sources: Seq<(Seq<char>, Seq<SourceView>)>, common: CommonOptions, n: int) -> Seq<(Seq<char>, Seq<SourceView>)>
    decreases n,
{
    if n <= 0 {
        sources
    } else {
        let prev = overrides_from(sources, common, n - 1);
        match override_argument(common, n - 1) {
            Some(arg) => assoc_set(prev, override_keys()[n - 1], seq![SourceView::CommandLine(arg)]),
            None => prev,
        }
    }
}

/// The sources after the command line: each flag that was given replaces the sources of its
/// key, and fzf arguments add a command-line source to the extra-arguments key.
pub open spec fn sources_after_cli(sources: Seq<(Seq<char>, Seq<SourceView>)>, common: CommonOptions) -> Seq<(Seq<char>, Seq<SourceView>)> {
    let after = overrides_from(sources, common, 5);
    if common.fzf_args@.len() > 0 {
        assoc_set(
            after,
            "selector.cd.fzf.extraArgs"@,
            match assoc_get(after, "selector.cd.fzf.extraArgs"@) {
                Some(list) => list,
                None => Seq::empty(),
            }.push(SourceView::CommandLine("--fzf-arg"@)),
        )
    } else {
        after
    }
}

fn override_flag(common: &CommonOptions, index: usize) -> (argument: Option<&'static str>)
    requires
        index < 5,
    ensures
        match argument {
            Some(a) => override_argument(*common, index as int) == Some(a@),
            None => override_argument(*common, index as int) is None,
        },
{
    if index == 0 {
        if common.hooks {
            Some("--hooks")
        } else if common.no_hooks {
            Some("--no-hooks")
        } else {
            None
        }
    } else if index == 1 {
        if common.gh {
            Some("--gh")
        } else if common.no_gh {
            Some("--no-gh")
        } else {
            None
        }
    } else if index == 2 {
        if common.hook_timeout_ms.is_some() {
            Some("--hook-timeout-ms")
        } else {
            None
        }
    } else if index == 3 {
        if common.lock_timeout_ms.is_some() {
            Some("--lock-timeout-ms")
        } else {
            None
        }
    } else {
        if common.prompt.is_some() {
            Some("--prompt")
        } else {
            None
        }
    }
}

fn override_key(index: usize) -> (key: &'static str)
    requires
        index < 5,
    ensures
        key@ == override_keys()[index as int],
{
    if index == 0 {
        "hooks.enabled"
    } else if index == 1 {
        "github.enabled"
    } else if index == 2 {
        "hooks.timeoutMs"
    } else if index == 3 {
        "locks.timeoutMs"
    } else {
        "selector.cd.prompt"
    }
}

/// The configuration a command sees, with the command-line overrides applied and recorded
/// as the sources of the values they set.
pub fn effective_configuration(loaded: LoadedConfig, common: &CommonOptions) -> (effective: LoadedConfig)
    ensures
        with_cli_values(loaded.config, effective.config, *common),
        effective.loaded_files == loaded.loaded_files,
        sources_view(effective.sources@) == sources_after_cli(sources_view(loaded.sources@), *common),
{
    let mut loaded = loaded;
    let ghost original = loaded;
    apply_cli_values(&mut loaded.config, common);
    let mut i: usize = 0;
    while i < 5
        invariant
            i <= 5,
            with_cli_values(original.config, loaded.config, *common),
            loaded.loaded_files == original.loaded_files,
            sources_view(loaded.sources@) == overrides_from(sources_view(original.sources@), *common, i as int),
        decreases 5 - i,
    {
        match override_flag(common, i) {
            Some(argument) => {
                let mut list: Vec<ConfigSource> = Vec::new();
                list.push(ConfigSource::CommandLine { argument: argument.to_owned() });
                assert(source_list_view(list@) =~= seq![SourceView::CommandLine(argument@)]);
                set_sources(&mut loaded.sources, override_key(i), list);
            },
            None => {},
        }
        i = i + 1;
    }
    if common.fzf_args.len() > 0 {
        let mut list = sources_for(&loaded.sources, "selector.cd.fzf.extraArgs");
        let ghost before = source_list_view(list@);
        list.push(ConfigSource::CommandLine { argument: String::from_str("--fzf-arg") });
        assert(source_list_view(list@) =~= before.push(SourceView::CommandLine("--fzf-arg"@)));
        set_sources(&mut loaded.sources, "selector.cd.fzf.extraArgs", list);
    }
    loaded
}

} // verus!
