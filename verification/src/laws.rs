//! Properties of whole provisioning runs, stated over the ghost machine
//! of [`crate::machine`] and proved once and for all: short-circuiting on
//! a local binary, short-circuiting on a cached version, and failure
//! before any network step for unsupported platforms and missing assets.

use vstd::prelude::*;
use crate::config::ConfigModel;
use crate::machine::{ModelState, ModelEvent, ModelAction, ReleaseModel, model_step, expects, is_final};
use crate::machine::no_asset_message;
use crate::platform::{
    HostOs, HostArch, os_supported, arch_supported, asset_name_spec, unsupported_os_message,
    unsupported_arch_message,
};
use crate::release::{ArchiveFormat, Asset, has_asset, first_match};
use crate::paths::{binary_path_spec, version_dir_spec};

verus! {

/// The actions a run of the machine requests, one per event consumed.
pub open spec fn run_actions(cfg: ConfigModel, s: ModelState, evs: Seq<ModelEvent>) -> Seq<
    ModelAction,
>
    decreases evs.len(),
{
    if evs.len() == 0 {
        Seq::<ModelAction>::empty()
    } else {
        let (s2, a) = model_step(cfg, s, evs[0]);
        seq![a] + run_actions(cfg, s2, evs.subrange(1, evs.len() as int))
    }
}

/// A run is valid when each event answers what the state reached so far
/// was waiting for. A driver that performs each requested action and
/// reports its outcome produces exactly such runs.
pub open spec fn valid_run(cfg: ConfigModel, s: ModelState, evs: Seq<ModelEvent>) -> bool
    decreases evs.len(),
{
    evs.len() == 0 || (expects(s, evs[0]) && valid_run(
        cfg,
        model_step(cfg, s, evs[0]).0,
        evs.subrange(1, evs.len() as int),
    ))
}

/// A final state (resolved or failed) accepts no further event: every
/// valid run from it is empty.
pub proof fn lemma_final_accepts_nothing(cfg: ConfigModel, s: ModelState, evs: Seq<ModelEvent>)
    requires
        is_final(s),
        valid_run(cfg, s, evs),
    ensures
        evs.len() == 0,
{
}

/// A binary already resolvable on the local search path settles
/// provisioning at once: the machine reports exactly that path and asks
/// for nothing further — in particular, no registry query, no download
/// and no status signal ever occur.
pub proof fn lemma_local_hit_short_circuits(
    cfg: ConfigModel,
    evs: Seq<ModelEvent>,
    path: Seq<char>,
)
    requires
        valid_run(cfg, ModelState::AwaitLocal, evs),
        evs.len() > 0,
        evs[0] == ModelEvent::LocalLookup(Some(path)),
    ensures
        evs.len() == 1,
        run_actions(cfg, ModelState::AwaitLocal, evs) =~~= seq![ModelAction::Finish { path }],
{
    let s2 = model_step(cfg, ModelState::AwaitLocal, evs[0]).0;
    let rest = evs.subrange(1, evs.len() as int);
    lemma_final_accepts_nothing(cfg, s2, rest);
    assert(run_actions(cfg, s2, rest) =~~= Seq::<ModelAction>::empty());
}

/// Once the installer has completed for a version, its binary sits at the
/// deterministic cache path, so a later run's cache probe answers `true`;
/// from there the machine reports that same path — the one
/// `binary_path_spec` gives for the version, on every such run — and asks
/// for no download and no status signal.
pub proof fn lemma_cached_version_short_circuits(
    cfg: ConfigModel,
    asset: Seq<char>,
    version: Seq<char>,
    assets: Seq<Asset>,
    evs: Seq<ModelEvent>,
)
    requires
        valid_run(cfg, ModelState::AwaitCache { asset, version, assets }, evs),
        evs.len() > 0,
        evs[0] == ModelEvent::CacheProbe(true),
    ensures
        evs.len() == 1,
        run_actions(cfg, ModelState::AwaitCache { asset, version, assets }, evs) =~~= seq![
            ModelAction::Finish { path: binary_path_spec(cfg.installed_binary, version) },
        ],
{
    let s0 = ModelState::AwaitCache { asset, version, assets };
    let s2 = model_step(cfg, s0, evs[0]).0;
    let rest = evs.subrange(1, evs.len() as int);
    lemma_final_accepts_nothing(cfg, s2, rest);
    assert(run_actions(cfg, s2, rest) =~~= Seq::<ModelAction>::empty());
}

/// A supported platform report advances straight to the registry query,
/// carrying the documented asset name and the fixed release options
/// (assets required, pre-releases excluded).
pub proof fn lemma_supported_platform_queries_registry(
    cfg: ConfigModel,
    os: HostOs,
    arch: HostArch,
)
    requires
        os_supported(os),
        arch_supported(arch),
    ensures
        model_step(cfg, ModelState::AwaitPlatform, ModelEvent::PlatformReport(os, arch)).0
            == (ModelState::AwaitRelease { asset: asset_name_spec(cfg.asset_stem, os, arch) }),
        model_step(cfg, ModelState::AwaitPlatform, ModelEvent::PlatformReport(os, arch)).1
            == (ModelAction::QueryRelease { repo: cfg.repo, require_assets: true, pre_release: false }),
{
}

/// An unsupported platform report fails at once with the documented
/// error — the unsupported-OS message when the operating system is not
/// macOS or Linux, else the unsupported-architecture message — and the
/// run requests no registry query, no download and no status signal.
pub proof fn lemma_unsupported_platform_never_reaches_network(
    cfg: ConfigModel,
    os: HostOs,
    arch: HostArch,
    evs: Seq<ModelEvent>,
)
    requires
        valid_run(cfg, ModelState::AwaitPlatform, evs),
        evs.len() > 0,
        evs[0] == ModelEvent::PlatformReport(os, arch),
        !(os_supported(os) && arch_supported(arch)),
    ensures
        evs.len() == 1,
        run_actions(cfg, ModelState::AwaitPlatform, evs) =~~= seq![
            ModelAction::Fail {
                message: if !os_supported(os) {
                    unsupported_os_message()
                } else {
                    unsupported_arch_message()
                },
            },
        ],
{
    let s2 = model_step(cfg, ModelState::AwaitPlatform, evs[0]).0;
    let rest = evs.subrange(1, evs.len() as int);
    lemma_final_accepts_nothing(cfg, s2, rest);
    assert(run_actions(cfg, s2, rest) =~~= Seq::<ModelAction>::empty());
}

/// A release whose assets lack the expected name fails with a message
/// naming both that asset name and the release version, and the run
/// requests no download, no permission change and no status signal: no
/// filesystem write is ever asked of the host.
pub proof fn lemma_missing_asset_fails_before_any_write(
    cfg: ConfigModel,
    asset: Seq<char>,
    version: Seq<char>,
    assets: Seq<Asset>,
    evs: Seq<ModelEvent>,
)
    requires
        valid_run(cfg, ModelState::AwaitCache { asset, version, assets }, evs),
        evs.len() > 0,
        evs[0] == ModelEvent::CacheProbe(false),
        !has_asset(assets, asset),
    ensures
        evs.len() == 1,
        run_actions(cfg, ModelState::AwaitCache { asset, version, assets }, evs) =~~= seq![
            ModelAction::Fail { message: no_asset_message(asset, version) },
        ],
{
    let s0 = ModelState::AwaitCache { asset, version, assets };
    let s2 = model_step(cfg, s0, evs[0]).0;
    let rest = evs.subrange(1, evs.len() as int);
    lemma_final_accepts_nothing(cfg, s2, rest);
    assert(run_actions(cfg, s2, rest) =~~= Seq::<ModelAction>::empty());
}

/// The fresh-install path, transition by transition: when network install
/// is allowed, no local binary is found, the platform is supported, the
/// probed version is not yet cached and the release carries the expected
/// asset, the machine asks in order for the local lookup, the platform
/// report, the registry query (assets required, pre-releases excluded),
/// the cache probe, the downloading signal, the download of the first
/// matching asset's URL into the version directory, the permission
/// change on the cached binary path, the idle signal, and finally
/// reports that same path.
pub proof fn lemma_fresh_install_sequence(
    cfg: ConfigModel,
    os: HostOs,
    arch: HostArch,
    version: Seq<char>,
    assets: Seq<Asset>,
    url: Seq<char>,
)
    requires
        cfg.allow_network_install,
        os_supported(os),
        arch_supported(arch),
        has_asset(assets, asset_name_spec(cfg.asset_stem, os, arch)),
    ensures
        model_step(cfg, ModelState::Start, ModelEvent::Begin) == (
            ModelState::AwaitLocal,
            ModelAction::QueryLocal { binary: cfg.search_binary },
        ),
        model_step(cfg, ModelState::AwaitLocal, ModelEvent::LocalLookup(None)) == (
            ModelState::AwaitPlatform,
            ModelAction::QueryPlatform,
        ),
        model_step(cfg, ModelState::AwaitPlatform, ModelEvent::PlatformReport(os, arch)) == (
            ModelState::AwaitRelease { asset: asset_name_spec(cfg.asset_stem, os, arch) },
            ModelAction::QueryRelease { repo: cfg.repo, require_assets: true, pre_release: false },
        ),
        model_step(
            cfg,
            ModelState::AwaitRelease { asset: asset_name_spec(cfg.asset_stem, os, arch) },
            ModelEvent::ReleaseReply(Ok(ReleaseModel { version, assets })),
        ) == (
            ModelState::AwaitCache {
                asset: asset_name_spec(cfg.asset_stem, os, arch),
                version,
                assets,
            },
            ModelAction::ProbeCache { path: binary_path_spec(cfg.installed_binary, version) },
        ),
        model_step(
            cfg,
            ModelState::AwaitCache {
                asset: asset_name_spec(cfg.asset_stem, os, arch),
                version,
                assets,
            },
            ModelEvent::CacheProbe(false),
        ) == (
            ModelState::AwaitDownloadSignal {
                url: assets[first_match(assets, asset_name_spec(cfg.asset_stem, os, arch))]
                    .download_url@,
                version,
            },
            ModelAction::SignalDownloading,
        ),
        model_step(cfg, ModelState::AwaitDownloadSignal { url, version }, ModelEvent::Signaled)
            == (
            ModelState::AwaitDownload { version },
            ModelAction::Download {
                url,
                dest: version_dir_spec(version),
                file_type: ArchiveFormat::GzipTar,
            },
        ),
        model_step(cfg, ModelState::AwaitDownload { version }, ModelEvent::DownloadDone(Ok(())))
            == (
            ModelState::AwaitChmod { version },
            ModelAction::MakeExecutable { path: binary_path_spec(cfg.installed_binary, version) },
        ),
        model_step(cfg, ModelState::AwaitChmod { version }, ModelEvent::ChmodDone(Ok(()))) == (
            ModelState::AwaitIdleSignal { version },
            ModelAction::SignalIdle,
        ),
        model_step(cfg, ModelState::AwaitIdleSignal { version }, ModelEvent::Signaled) == (
            ModelState::Resolved { path: binary_path_spec(cfg.installed_binary, version) },
            ModelAction::Finish { path: binary_path_spec(cfg.installed_binary, version) },
        ),
{
}

} // verus!
