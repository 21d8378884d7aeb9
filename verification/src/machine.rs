//! The provisioning state machine. Each call of [`step`] consumes the
//! current state and the outcome of the previous host-side operation
//! (local lookup, platform report, registry reply, cache probe, download,
//! permission change, status signal) and returns the next state together
//! with the one action the host must perform next. The machine itself
//! performs no I/O; a thin driver at the host boundary executes each
//! action and feeds the outcome back in.
//!
//! The ghost mirror types (`ModelState`, `ModelEvent`, `ModelAction`) state
//! the same data over `Seq<char>`, and [`model_step`] is the machine's full
//! transition function; [`step`] is proved to refine it exactly.

use vstd::prelude::*;
use vstd::string::StringExecFns;
use crate::config::{Config, ConfigModel};
use crate::platform::{
    HostOs, HostArch, os_supported, arch_supported, asset_name_spec, unsupported_os_message,
    unsupported_arch_message, asset_name,
};
use crate::release::{
    ArchiveFormat, Asset, ReleaseInfo, has_asset, first_match, find_asset,
    lemma_first_match_bounds,
};
use crate::paths::{version_dir_spec, binary_path_spec, version_dir, binary_path};

verus! {

/// Ghost image of a registry reply: version tag plus asset list.
#[verifier::ext_equal]
pub struct ReleaseModel {
    pub version: Seq<char>,
    pub assets: Seq<Asset>,
}

#[verifier::ext_equal]
pub enum ModelState {
    Start,
    AwaitLocal,
    AwaitPlatform,
    AwaitRelease { asset: Seq<char> },
    AwaitCache { asset: Seq<char>, version: Seq<char>, assets: Seq<Asset> },
    AwaitDownloadSignal { url: Seq<char>, version: Seq<char> },
    AwaitDownload { version: Seq<char> },
    AwaitChmod { version: Seq<char> },
    AwaitIdleSignal { version: Seq<char> },
    Resolved { path: Seq<char> },
    Failed { message: Seq<char> },
}

#[verifier::ext_equal]
pub enum ModelEvent {
    Begin,
    LocalLookup(Option<Seq<char>>),
    PlatformReport(HostOs, HostArch),
    ReleaseReply(Result<ReleaseModel, Seq<char>>),
    CacheProbe(bool),
    DownloadDone(Result<(), Seq<char>>),
    ChmodDone(Result<(), Seq<char>>),
    Signaled,
}

#[verifier::ext_equal]
pub enum ModelAction {
    QueryLocal { binary: Seq<char> },
    QueryPlatform,
    QueryRelease { repo: Seq<char>, require_assets: bool, pre_release: bool },
    ProbeCache { path: Seq<char> },
    SignalDownloading,
    Download { url: Seq<char>, dest: Seq<char>, file_type: ArchiveFormat },
    MakeExecutable { path: Seq<char> },
    SignalIdle,
    Finish { path: Seq<char> },
    Fail { message: Seq<char> },
}

/// The provisioning state between two host-side operations.
#[derive(Debug)]
pub enum ProvisionState {
    Start,
    AwaitLocal,
    AwaitPlatform,
    AwaitRelease { asset: String },
    AwaitCache { asset: String, release: ReleaseInfo },
    AwaitDownloadSignal { url: String, version: String },
    AwaitDownload { version: String },
    AwaitChmod { version: String },
    AwaitIdleSignal { version: String },
    Resolved { path: String },
    Failed { message: String },
}

/// The outcome of the host-side operation the machine asked for last.
#[derive(Debug)]
pub enum Event {
    Begin,
    LocalLookup(Option<String>),
    PlatformReport(HostOs, HostArch),
    ReleaseReply(Result<ReleaseInfo, String>),
    CacheProbe(bool),
    DownloadDone(Result<(), String>),
    ChmodDone(Result<(), String>),
    Signaled,
}

/// The one operation the host must perform next.
#[derive(Debug)]
pub enum Action {
    QueryLocal { binary: String },
    QueryPlatform,
    QueryRelease { repo: String, require_assets: bool, pre_release: bool },
    ProbeCache { path: String },
    SignalDownloading,
    Download { url: String, dest: String, file_type: ArchiveFormat },
    MakeExecutable { path: String },
    SignalIdle,
    Finish { path: String },
    Fail { message: String },
}

impl View for ProvisionState {
    type V = ModelState;

    open spec fn view(&self) -> ModelState {
        match self {
            ProvisionState::Start => ModelState::Start,
            ProvisionState::AwaitLocal => ModelState::AwaitLocal,
            ProvisionState::AwaitPlatform => ModelState::AwaitPlatform,
            ProvisionState::AwaitRelease { asset } => ModelState::AwaitRelease { asset: asset@ },
            ProvisionState::AwaitCache { asset, release } => ModelState::AwaitCache {
                asset: asset@,
                version: release.version@,
                assets: release.assets@,
            },
            ProvisionState::AwaitDownloadSignal { url, version } => ModelState::AwaitDownloadSignal {
                url: url@,
                version: version@,
            },
            ProvisionState::AwaitDownload { version } => ModelState::AwaitDownload {
                version: version@,
            },
            ProvisionState::AwaitChmod { version } => ModelState::AwaitChmod { version: version@ },
            ProvisionState::AwaitIdleSignal { version } => ModelState::AwaitIdleSignal {
                version: version@,
            },
            ProvisionState::Resolved { path } => ModelState::Resolved { path: path@ },
            ProvisionState::Failed { message } => ModelState::Failed { message: message@ },
        }
    }
}

impl View for Event {
    type V = ModelEvent;

    open spec fn view(&self) -> ModelEvent {
        match self {
            Event::Begin => ModelEvent::Begin,
            Event::LocalLookup(found) => ModelEvent::LocalLookup(
                match found {
                    Some(p) => Some(p@),
                    None => None,
                },
            ),
            Event::PlatformReport(os, arch) => ModelEvent::PlatformReport(*os, *arch),
            Event::ReleaseReply(reply) => ModelEvent::ReleaseReply(
                match reply {
                    Ok(rel) => Ok(ReleaseModel { version: rel.version@, assets: rel.assets@ }),
                    Err(m) => Err(m@),
                },
            ),
            Event::CacheProbe(present) => ModelEvent::CacheProbe(*present),
            Event::DownloadDone(outcome) => ModelEvent::DownloadDone(
                match outcome {
                    Ok(_) => Ok(()),
                    Err(m) => Err(m@),
                },
            ),
            Event::ChmodDone(outcome) => ModelEvent::ChmodDone(
                match outcome {
                    Ok(_) => Ok(()),
                    Err(m) => Err(m@),
                },
            ),
            Event::Signaled => ModelEvent::Signaled,
        }
    }
}

impl View for Action {
    type V = ModelAction;

    open spec fn view(&self) -> ModelAction {
        match self {
            Action::QueryLocal { binary } => ModelAction::QueryLocal { binary: binary@ },
            Action::QueryPlatform => ModelAction::QueryPlatform,
            Action::QueryRelease { repo, require_assets, pre_release } => ModelAction::QueryRelease {
                repo: repo@,
                require_assets: *require_assets,
                pre_release: *pre_release,
            },
            Action::ProbeCache { path } => ModelAction::ProbeCache { path: path@ },
            Action::SignalDownloading => ModelAction::SignalDownloading,
            Action::Download { url, dest, file_type } => ModelAction::Download {
                url: url@,
                dest: dest@,
                file_type: *file_type,
            },
            Action::MakeExecutable { path } => ModelAction::MakeExecutable { path: path@ },
            Action::SignalIdle => ModelAction::SignalIdle,
            Action::Finish { path } => ModelAction::Finish { path: path@ },
            Action::Fail { message } => ModelAction::Fail { message: message@ },
        }
    }
}

/// The instructive error of the no-network profile: the binary must
/// already be on the local search path.
pub open spec fn local_missing_message(binary: Seq<char>) -> Seq<char> {
    "Local binary '"@ + binary + "' was not found on the search path"@
}

/// The error for a release that lacks the expected asset, naming both the
/// missing asset name and the release version.
pub open spec fn no_asset_message(asset: Seq<char>, version: Seq<char>) -> Seq<char> {
    "No asset '"@ + asset + "' found in release "@ + version
}

pub open spec fn download_failed_message(cause: Seq<char>) -> Seq<char> {
    "Failed to download server binary: "@ + cause
}

pub open spec fn chmod_failed_message(cause: Seq<char>) -> Seq<char> {
    "Failed to make binary executable: "@ + cause
}

/// Which event each state is waiting for. The driver must answer the
/// machine's last action with the matching event.
pub open spec fn expects(s: ModelState, e: ModelEvent) -> bool {
    match (s, e) {
        (ModelState::Start, ModelEvent::Begin) => true,
        (ModelState::AwaitLocal, ModelEvent::LocalLookup(_)) => true,
        (ModelState::AwaitPlatform, ModelEvent::PlatformReport(_, _)) => true,
        (ModelState::AwaitRelease { .. }, ModelEvent::ReleaseReply(_)) => true,
        (ModelState::AwaitCache { .. }, ModelEvent::CacheProbe(_)) => true,
        (ModelState::AwaitDownloadSignal { .. }, ModelEvent::Signaled) => true,
        (ModelState::AwaitDownload { .. }, ModelEvent::DownloadDone(_)) => true,
        (ModelState::AwaitChmod { .. }, ModelEvent::ChmodDone(_)) => true,
        (ModelState::AwaitIdleSignal { .. }, ModelEvent::Signaled) => true,
        _ => false,
    }
}

/// A state from which no further event is accepted: provisioning has
/// resolved a binary path or failed with a message.
pub open spec fn is_final(s: ModelState) -> bool {
    s is Resolved || s is Failed
}

/// The full transition function of the provisioning machine.
pub open spec fn model_step(cfg: ConfigModel, s: ModelState, e: ModelEvent) -> (ModelState,
    ModelAction)
    recommends
        expects(s, e),
{
    match (s, e) {
        (ModelState::Start, ModelEvent::Begin) => (
            ModelState::AwaitLocal,
            ModelAction::QueryLocal { binary: cfg.search_binary },
        ),
        (ModelState::AwaitLocal, ModelEvent::LocalLookup(found)) => match found {
            Some(path) => (ModelState::Resolved { path }, ModelAction::Finish { path }),
            None => if cfg.allow_network_install {
                (ModelState::AwaitPlatform, ModelAction::QueryPlatform)
            } else {
                let m = local_missing_message(cfg.search_binary);
                (ModelState::Failed { message: m }, ModelAction::Fail { message: m })
            },
        },
        (ModelState::AwaitPlatform, ModelEvent::PlatformReport(os, arch)) => if !os_supported(os) {
            let m = unsupported_os_message();
            (ModelState::Failed { message: m }, ModelAction::Fail { message: m })
        } else if !arch_supported(arch) {
            let m = unsupported_arch_message();
            (ModelState::Failed { message: m }, ModelAction::Fail { message: m })
        } else {
            (
                ModelState::AwaitRelease { asset: asset_name_spec(cfg.asset_stem, os, arch) },
                ModelAction::QueryRelease {
                    repo: cfg.repo,
                    require_assets: true,
                    pre_release: false,
                },
            )
        },
        (ModelState::AwaitRelease { asset }, ModelEvent::ReleaseReply(reply)) => match reply {
            Ok(rel) => (
                ModelState::AwaitCache { asset, version: rel.version, assets: rel.assets },
                ModelAction::ProbeCache { path: binary_path_spec(cfg.installed_binary, rel.version) },
            ),
            Err(m) => (ModelState::Failed { message: m }, ModelAction::Fail { message: m }),
        },
        (ModelState::AwaitCache { asset, version, assets }, ModelEvent::CacheProbe(present)) => if present {
            (
                ModelState::Resolved { path: binary_path_spec(cfg.installed_binary, version) },
                ModelAction::Finish { path: binary_path_spec(cfg.installed_binary, version) },
            )
        } else if !has_asset(assets, asset) {
            let m = no_asset_message(asset, version);
            (ModelState::Failed { message: m }, ModelAction::Fail { message: m })
        } else {
            (
                ModelState::AwaitDownloadSignal {
                    url: assets[first_match(assets, asset)].download_url@,
                    version,
                },
                ModelAction::SignalDownloading,
            )
        },
        (ModelState::AwaitDownloadSignal { url, version }, ModelEvent::Signaled) => (
            ModelState::AwaitDownload { version },
            ModelAction::Download { url, dest: version_dir_spec(version), file_type: ArchiveFormat::GzipTar },
        ),
        (ModelState::AwaitDownload { version }, ModelEvent::DownloadDone(outcome)) => match outcome {
            Ok(_) => (
                ModelState::AwaitChmod { version },
                ModelAction::MakeExecutable { path: binary_path_spec(cfg.installed_binary, version) },
            ),
            Err(cause) => {
                let m = download_failed_message(cause);
                (ModelState::Failed { message: m }, ModelAction::Fail { message: m })
            },
        },
        (ModelState::AwaitChmod { version }, ModelEvent::ChmodDone(outcome)) => match outcome {
            Ok(_) => (ModelState::AwaitIdleSignal { version }, ModelAction::SignalIdle),
            Err(cause) => {
                let m = chmod_failed_message(cause);
                (ModelState::Failed { message: m }, ModelAction::Fail { message: m })
            },
        },
        (ModelState::AwaitIdleSignal { version }, ModelEvent::Signaled) => (
            ModelState::Resolved { path: binary_path_spec(cfg.installed_binary, version) },
            ModelAction::Finish { path: binary_path_spec(cfg.installed_binary, version) },
        ),
        _ => (s, ModelAction::Fail { message: Seq::<char>::empty() }),
    }
}

/// Advance the machine by one event. Refines [`model_step`] exactly: the
/// returned state and action are the ghost transition's, field for field.
pub fn step(cfg: &Config, s: ProvisionState, e: Event) -> (r: (ProvisionState, Action))
    requires
        expects(s@, e@),
    ensures
        r.0@ == model_step(cfg@, s@, e@).0,
        r.1@ == model_step(cfg@, s@, e@).1,
{
    match (s, e) {
        (ProvisionState::Start, Event::Begin) => {
            let binary = cfg.search_binary.clone();
            (ProvisionState::AwaitLocal, Action::QueryLocal { binary })
        },
        (ProvisionState::AwaitLocal, Event::LocalLookup(found)) => match found {
            Some(path) => {
                let p = path.clone();
                (ProvisionState::Resolved { path }, Action::Finish { path: p })
            },
            None => if cfg.allow_network_install {
                (ProvisionState::AwaitPlatform, Action::QueryPlatform)
            } else {
                let mut m = String::from_str("Local binary '");
                m.append(cfg.search_binary.as_str());
                m.append("' was not found on the search path");
                let m2 = m.clone();
                (ProvisionState::Failed { message: m }, Action::Fail { message: m2 })
            },
        },
        (ProvisionState::AwaitPlatform, Event::PlatformReport(os, arch)) => {
            match asset_name(cfg.asset_stem.as_str(), os, arch) {
                Ok(name) => {
                    let repo = cfg.repo.clone();
                    (
                        ProvisionState::AwaitRelease { asset: name },
                        Action::QueryRelease { repo, require_assets: true, pre_release: false },
                    )
                },
                Err(m) => {
                    let m2 = m.clone();
                    (ProvisionState::Failed { message: m }, Action::Fail { message: m2 })
                },
            }
        },
        (ProvisionState::AwaitRelease { asset }, Event::ReleaseReply(reply)) => match reply {
            Ok(release) => {
                let path = binary_path(cfg.installed_binary.as_str(), release.version.as_str());
                (
                    ProvisionState::AwaitCache { asset, release },
                    Action::ProbeCache { path },
                )
            },
            Err(m) => {
                let m2 = m.clone();
                (ProvisionState::Failed { message: m }, Action::Fail { message: m2 })
            },
        },
        (ProvisionState::AwaitCache { asset, release }, Event::CacheProbe(present)) => if present {
            let path = binary_path(cfg.installed_binary.as_str(), release.version.as_str());
            let p2 = path.clone();
            (ProvisionState::Resolved { path }, Action::Finish { path: p2 })
        } else {
            match find_asset(&release.assets, &asset) {
                Some(i) => {
                    proof {
                        lemma_first_match_bounds(release.assets@, asset@);
                    }
                    let url = release.assets[i].download_url.clone();
                    (
                        ProvisionState::AwaitDownloadSignal { url, version: release.version },
                        Action::SignalDownloading,
                    )
                },
                None => {
                    let mut m = String::from_str("No asset '");
                    m.append(asset.as_str());
                    m.append("' found in release ");
                    m.append(release.version.as_str());
                    let m2 = m.clone();
                    (ProvisionState::Failed { message: m }, Action::Fail { message: m2 })
                },
            }
        },
        (ProvisionState::AwaitDownloadSignal { url, version }, Event::Signaled) => {
            let dest = version_dir(version.as_str());
            (
                ProvisionState::AwaitDownload { version },
                Action::Download { url, dest, file_type: ArchiveFormat::GzipTar },
            )
        },
        (ProvisionState::AwaitDownload { version }, Event::DownloadDone(outcome)) => match outcome {
            Ok(_) => {
                let path = binary_path(cfg.installed_binary.as_str(), version.as_str());
                (ProvisionState::AwaitChmod { version }, Action::MakeExecutable { path })
            },
            Err(cause) => {
                let mut m = String::from_str("Failed to download server binary: ");
                m.append(cause.as_str());
                let m2 = m.clone();
                (ProvisionState::Failed { message: m }, Action::Fail { message: m2 })
            },
        },
        (ProvisionState::AwaitChmod { version }, Event::ChmodDone(outcome)) => match outcome {
            Ok(_) => (ProvisionState::AwaitIdleSignal { version }, Action::SignalIdle),
            Err(cause) => {
                let mut m = String::from_str("Failed to make binary executable: ");
                m.append(cause.as_str());
                let m2 = m.clone();
                (ProvisionState::Failed { message: m }, Action::Fail { message: m2 })
            },
        },
        (ProvisionState::AwaitIdleSignal { version }, Event::Signaled) => {
            let path = binary_path(cfg.installed_binary.as_str(), version.as_str());
            let p2 = path.clone();
            (ProvisionState::Resolved { path }, Action::Finish { path: p2 })
        },
        _ => vstd::pervasive::unreached(),
    }
}

} // verus!
