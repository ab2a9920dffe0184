//! Backend detection over simulated disk layouts.

use unity::runtime::{get_runtime, is_unity, RuntimeError, RuntimeSelection};
use unity::utils::path::{
    file_name_part, file_stem_part, find_game_assembly, find_mono, get_data_path, join_path,
    parent_part, FsSnapshot,
};

fn snap(paths: &[&str]) -> FsSnapshot {
    FsSnapshot { present: paths.iter().map(|p| p.to_string()).collect() }
}

#[test]
fn data_path_derivation() {
    assert_eq!(get_data_path("/games/Game.exe").unwrap(), "/games/Game_Data");
    assert_eq!(get_data_path("Game.exe").unwrap(), "Game_Data");
    assert_eq!(get_data_path("/games/Game").unwrap(), "/games/Game_Data");
    assert!(get_data_path("/games/").is_none());
    assert!(get_data_path("").is_none());
}

#[test]
fn path_components() {
    assert_eq!(file_name_part("/a/b/c.exe"), "c.exe");
    assert_eq!(file_name_part("c.exe"), "c.exe");
    assert_eq!(parent_part("/a/b/c.exe"), "/a/b");
    assert_eq!(parent_part("c.exe"), "");
    assert_eq!(file_stem_part("/a/Game.exe").unwrap(), "Game");
    assert_eq!(file_stem_part("/a/Game.old.exe").unwrap(), "Game.old");
    assert_eq!(file_stem_part("/a/.hidden").unwrap(), ".hidden");
    assert_eq!(file_stem_part("/a/Game").unwrap(), "Game");
    assert!(file_stem_part("/a/b/").is_none());
    assert_eq!(join_path("", "x.dll"), "x.dll");
    assert_eq!(join_path("/base", "x.dll"), "/base/x.dll");
}

#[test]
fn marker_globalgamemanagers_confirms_engine() {
    let fs = snap(&["/g/Game_Data", "/g/Game_Data/globalgamemanagers"]);
    assert_eq!(is_unity("/g/Game.exe", &fs).unwrap(), true);
}

#[test]
fn marker_data_unity3d_confirms_engine() {
    let fs = snap(&["/g/Game_Data", "/g/Game_Data/data.unity3d"]);
    assert_eq!(is_unity("/g/Game.exe", &fs).unwrap(), true);
}

#[test]
fn marker_main_data_confirms_engine() {
    let fs = snap(&["/g/Game_Data", "/g/Game_Data/mainData"]);
    assert_eq!(is_unity("/g/Game.exe", &fs).unwrap(), true);
}

#[test]
fn no_marker_denies_engine_whatever_else_exists() {
    let fs = snap(&[
        "/g/Game_Data",
        "/g/Game_Data/level0",
        "/g/Game_Data/Resources",
        "/g/Game_Data/app.info",
    ]);
    assert_eq!(is_unity("/g/Game.exe", &fs).unwrap(), false);
}

#[test]
fn missing_data_directory_denies_engine() {
    let fs = snap(&["/g/Game.exe", "/g/other.txt"]);
    assert_eq!(is_unity("/g/Game.exe", &fs).unwrap(), false);
}

#[test]
fn unusable_executable_path_is_an_error() {
    let fs = snap(&[]);
    assert_eq!(is_unity("/g/dir/", &fs).unwrap_err(), RuntimeError::BasePathNotFound);
    assert_eq!(get_runtime("", &fs).unwrap_err(), RuntimeError::BasePathNotFound);
}

#[test]
fn find_mono_prefers_modern_names_and_earlier_directories() {
    let fs = snap(&[
        "/g/mono-2.0-bdwgc.dll",
        "/g/Game_Data/mono-2.0-bdwgc.dll",
        "/g/mono.dll",
    ]);
    assert_eq!(find_mono("/g", "/g/Game_Data", &fs).unwrap(), "/g/mono-2.0-bdwgc.dll");

    let fs = snap(&["/g/Game_Data/MonoBleedingEdge/mono-2.0-bdwgc.dll", "/g/mono.dll"]);
    assert_eq!(
        find_mono("/g", "/g/Game_Data", &fs).unwrap(),
        "/g/Game_Data/MonoBleedingEdge/mono-2.0-bdwgc.dll"
    );

    let fs = snap(&["/g/Game_Data/libmono.so"]);
    assert_eq!(find_mono("/g", "/g/Game_Data", &fs).unwrap(), "/g/Game_Data/libmono.so");

    let fs = snap(&["/g/Game_Data/other.dll"]);
    assert!(find_mono("/g", "/g/Game_Data", &fs).is_none());
}

#[test]
fn find_game_assembly_looks_only_in_base() {
    let fs = snap(&["/g/GameAssembly.dll"]);
    assert_eq!(find_game_assembly("/g", &fs).unwrap(), "/g/GameAssembly.dll");
    let fs = snap(&["/g/Game_Data/GameAssembly.dll"]);
    assert!(find_game_assembly("/g", &fs).is_none());
    let fs = snap(&["/g/GameAssembly.so"]);
    assert_eq!(find_game_assembly("/g", &fs).unwrap(), "/g/GameAssembly.so");
}

#[test]
fn detection_selects_mono_when_its_library_is_present() {
    let fs = snap(&[
        "/g/Game_Data",
        "/g/Game_Data/globalgamemanagers",
        "/g/Game_Data/mono.dll",
        "/g/GameAssembly.dll",
    ]);
    let sel = get_runtime("/g/Game.exe", &fs).unwrap();
    assert_eq!(sel, RuntimeSelection::Mono { lib_path: "/g/Game_Data/mono.dll".to_string() });
}

#[test]
fn detection_falls_back_to_il2cpp_when_mono_is_absent() {
    let fs = snap(&[
        "/g/Game_Data",
        "/g/Game_Data/globalgamemanagers",
        "/g/GameAssembly.dll",
    ]);
    let sel = get_runtime("/g/Game.exe", &fs).unwrap();
    assert_eq!(sel, RuntimeSelection::Il2Cpp { lib_path: "/g/GameAssembly.dll".to_string() });
}

#[test]
fn detection_fails_when_no_backend_library_exists() {
    let fs = snap(&["/g/Game_Data", "/g/Game_Data/globalgamemanagers"]);
    assert_eq!(get_runtime("/g/Game.exe", &fs).unwrap_err(), RuntimeError::GameAssemblyNotFound);
}

#[test]
fn non_engine_process_is_rejected_before_any_library_probe() {
    // the data directory does not exist at all, though backend libraries do
    let fs = snap(&["/g/mono.dll", "/g/GameAssembly.dll"]);
    assert_eq!(get_runtime("/g/Game.exe", &fs).unwrap_err(), RuntimeError::NotUnity);
}
