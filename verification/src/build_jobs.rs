//! Plans for preparing the streamer's external dependencies.
//!
//! Downloading sources and running the builds is shell work outside this
//! library; these functions decide what a request amounts to — which steps,
//! in which order, with which options — and hand the plan to the caller to
//! execute. Android dependency preparation is not supported and is ruled
//! out by precondition.

use vstd::prelude::*;

verus! {

/// The platform a dependency build targets.
#[derive(Clone, Copy, PartialEq, Eq, Structural, Debug)]
pub enum TargetBuildPlatform {
    Linux,
    Android,
}

/// Which OpenXR loaders a client dependency build bundles.
#[derive(Clone, Copy, PartialEq, Eq, Structural, Debug)]
pub enum OpenXRLoadersSelection {
    OnlyGeneric,
    OnlyPico,
    All,
}

/// Flags shared by the build subcommands.
#[derive(Clone, Copy, PartialEq, Eq, Structural, Debug)]
pub struct CommonBuildFlags {
    /// Use only dependencies pinned by the lock file.
    pub locked: bool,
    /// Use only locally cached dependencies, failing on any download.
    pub frozen: bool,
    /// Fail outright if the network would be needed.
    pub offline: bool,
    /// Enable profiling.
    pub profiling: bool,
}

impl Default for CommonBuildFlags {
    /// All flags off.
    fn default() -> (r: CommonBuildFlags)
        ensures
            r == (CommonBuildFlags {
                locked: false,
                frozen: false,
                offline: false,
                profiling: false,
            }),
    {
        CommonBuildFlags { locked: false, frozen: false, offline: false, profiling: false }
    }
}

/// One step of a dependency-preparation plan.
#[derive(Clone, Copy, PartialEq, Eq, Structural, Debug)]
pub enum ServerDepsStep {
    /// Fetch the third-party sources, including the extra encoder headers
    /// when hardware-encoder support is selected.
    DownloadSources { enable_nvenc: bool },
    /// Reset the third-party source folders, dropping earlier build
    /// directories and patches.
    CleanThirdparty,
    /// Configure and build the x264 encoder.
    BuildX264,
    /// Patch, configure and build ffmpeg, with the hardware-encoder
    /// support selected.
    BuildFfmpeg { enable_nvenc: bool },
}

/// The build half of a plan: clean, then x264, then ffmpeg.
pub open spec fn build_steps(enable_nvenc: bool) -> Seq<ServerDepsStep> {
    seq![
        ServerDepsStep::CleanThirdparty,
        ServerDepsStep::BuildX264,
        ServerDepsStep::BuildFfmpeg { enable_nvenc },
    ]
}

/// The download half of a plan.
pub open spec fn download_steps(enable_nvenc: bool) -> Seq<ServerDepsStep> {
    seq![ServerDepsStep::DownloadSources { enable_nvenc }]
}

/// The plan that downloads the streamer's dependencies. Only the Linux
/// target (or none, meaning the host) is supported.
pub fn download_server_deps(platform: Option<TargetBuildPlatform>, enable_nvenc: bool) -> (r: Vec<
    ServerDepsStep,
>)
    requires
        platform != Option::Some(TargetBuildPlatform::Android),
    ensures
        r@ == download_steps(enable_nvenc),
{
    let mut r: Vec<ServerDepsStep> = Vec::new();
    r.push(ServerDepsStep::DownloadSources { enable_nvenc });
    proof {
        assert(r@ =~= download_steps(enable_nvenc));
    }
    r
}

/// The plan that compiles the streamer's dependencies. Only the Linux
/// target (or none, meaning the host) is supported.
pub fn build_server_deps(platform: Option<TargetBuildPlatform>, enable_nvenc: bool) -> (r: Vec<
    ServerDepsStep,
>)
    requires
        platform != Option::Some(TargetBuildPlatform::Android),
    ensures
        r@ == build_steps(enable_nvenc),
{
    let mut r: Vec<ServerDepsStep> = Vec::new();
    r.push(ServerDepsStep::CleanThirdparty);
    r.push(ServerDepsStep::BuildX264);
    r.push(ServerDepsStep::BuildFfmpeg { enable_nvenc });
    proof {
        assert(r@ =~= build_steps(enable_nvenc));
    }
    r
}

/// The plan that downloads and then compiles the streamer's dependencies.
pub fn prepare_server_deps(platform: Option<TargetBuildPlatform>, enable_nvenc: bool) -> (r: Vec<
    ServerDepsStep,
>)
    requires
        platform != Option::Some(TargetBuildPlatform::Android),
    ensures
        r@ == download_steps(enable_nvenc) + build_steps(enable_nvenc),
{
    let mut r = download_server_deps(platform, enable_nvenc);
    let mut build = build_server_deps(platform, enable_nvenc);
    r.append(&mut build);
    proof {
        assert(r@ =~= download_steps(enable_nvenc) + build_steps(enable_nvenc));
    }
    r
}

/// The plan that resets the third-party folders and rebuilds everything:
/// what a full packaging run performs before building the streamer.
pub fn clean_and_build_server_deps(enable_nvenc: bool) -> (r: Vec<ServerDepsStep>)
    ensures
        r@ == build_steps(enable_nvenc),
{
    build_server_deps(Option::None, enable_nvenc)
}

} // verus!
