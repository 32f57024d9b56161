use nanvr_core::build_jobs::{
    build_server_deps, clean_and_build_server_deps, download_server_deps, prepare_server_deps,
    CommonBuildFlags, ServerDepsStep, TargetBuildPlatform,
};
use nanvr_core::codec::{codec_from_wire_id, codec_wire_id, NanvrCodecType};
use nanvr_core::new_version_popup::NewVersionPopup;

#[test]
fn download_plan_only_fetches() {
    let plan = download_server_deps(Some(TargetBuildPlatform::Linux), true);
    assert_eq!(plan, vec![ServerDepsStep::DownloadSources { enable_nvenc: true }]);
}

#[test]
fn build_plan_cleans_then_builds_both_encoders() {
    let plan = build_server_deps(None, false);
    assert_eq!(
        plan,
        vec![
            ServerDepsStep::CleanThirdparty,
            ServerDepsStep::BuildX264,
            ServerDepsStep::BuildFfmpeg {
                enable_nvenc: false
            },
        ]
    );
}

#[test]
fn prepare_plan_downloads_then_builds() {
    let plan = prepare_server_deps(Some(TargetBuildPlatform::Linux), true);
    assert_eq!(
        plan,
        vec![
            ServerDepsStep::DownloadSources { enable_nvenc: true },
            ServerDepsStep::CleanThirdparty,
            ServerDepsStep::BuildX264,
            ServerDepsStep::BuildFfmpeg { enable_nvenc: true },
        ]
    );
}

#[test]
fn packaging_rebuild_carries_the_nvenc_choice() {
    let plan = clean_and_build_server_deps(true);
    assert_eq!(plan[2], ServerDepsStep::BuildFfmpeg { enable_nvenc: true });
}

#[test]
fn default_build_flags_are_all_off() {
    let flags = CommonBuildFlags::default();
    assert!(!flags.locked && !flags.frozen && !flags.offline && !flags.profiling);
}

#[test]
fn codec_wire_ids_are_stable_and_round_trip() {
    assert_eq!(codec_wire_id(NanvrCodecType::H264), 0);
    assert_eq!(codec_wire_id(NanvrCodecType::Hevc), 1);
    assert_eq!(codec_wire_id(NanvrCodecType::AV1), 2);
    for codec in [
        NanvrCodecType::H264,
        NanvrCodecType::Hevc,
        NanvrCodecType::AV1,
    ] {
        assert_eq!(codec_from_wire_id(codec_wire_id(codec)), Some(codec));
    }
    assert_eq!(codec_from_wire_id(3), None);
}

#[test]
fn popup_keeps_what_it_was_given() {
    let popup = NewVersionPopup::new(
        "22.0.0".to_string(),
        "A new streamer version is available.".to_string(),
        Some("/opt/nanvr/launcher".to_string()),
    );
    assert_eq!(popup.version(), "22.0.0");
    assert_eq!(popup.message(), "A new streamer version is available.");
    assert_eq!(
        popup.launcher_path().as_deref(),
        Some("/opt/nanvr/launcher")
    );

    let without = NewVersionPopup::new("22.0.0".to_string(), "msg".to_string(), None);
    assert!(without.launcher_path().is_none());
}
