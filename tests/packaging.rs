use sdl_apk::error::{BuildError, ErrorKind};
use sdl_apk::manifest::{application_identity, get_android_app_id, get_android_app_title, get_toml_string};
use sdl_apk::profile::{next_stage, packaging_stages, BuildProfile, PackagingStage};
use sdl_apk::scaffold::{apply_edits, java_main_folder, library_placements, main_class_source, project_file_edits, replace_all};
use sdl_apk::signing::{
    apksigner_args, build_tool_path, default_keystore_path, keytool_args, newest_build_tools, release_dir,
    resolve_signing, text_less, zipalign_args,
};

const MANIFEST: &str = "[package]\nname = \"demo\"\n\n[package.metadata.android]\npackage_name = \"com.example.demo\"\ntitle = \"Demo Game\"\n";

fn strings(v: &[&str]) -> Vec<String> {
    v.iter().map(|s| s.to_string()).collect()
}

#[test]
fn manifest_gives_identity() {
    assert_eq!(get_android_app_id(MANIFEST).unwrap(), "com.example.demo");
    assert_eq!(get_android_app_title(MANIFEST).unwrap(), "Demo Game");
    let id = application_identity(MANIFEST).unwrap();
    assert_eq!(id.app_id, "com.example.demo");
    assert_eq!(id.title, "Demo Game");
}

#[test]
fn missing_app_id_uses_default_everywhere() {
    let text = "[package]\nname = \"demo\"\n";
    let id = application_identity(text).unwrap();
    assert_eq!(id.app_id, "org.libsdl.app");
    assert_eq!(id.title, "Untitled");
    let edits = project_file_edits(&id.app_id, &id.title);
    let gradle = apply_edits("applicationId \"org.libsdl.app\"", &edits[1].edits);
    assert_eq!(gradle, "applicationId \"org.libsdl.app\"");
    assert_eq!(
        sdl_apk::deploy::force_stop_args(&id.app_id),
        strings(&["shell", "am", "force-stop", "org.libsdl.app"])
    );
    assert_eq!(sdl_apk::deploy::pidof_args(&id.app_id), strings(&["shell", "pidof", "org.libsdl.app"]));
}

#[test]
fn malformed_manifest_is_rejected() {
    let e = get_android_app_id("[package\nname = ").unwrap_err();
    assert!(matches!(e, BuildError::MalformedManifest));
    assert_eq!(e.kind(), ErrorKind::Configuration);
    assert!(application_identity("= 1").is_err());
}

#[test]
fn toml_lookup_follows_tables_only() {
    let text = "a = 1\n[b]\nc = \"x\"\nd = 2\n[b.e]\nf = \"y\"\n";
    assert_eq!(get_toml_string(text, &["b", "c"]).unwrap(), Some("x".to_string()));
    assert_eq!(get_toml_string(text, &["b", "e", "f"]).unwrap(), Some("y".to_string()));
    assert_eq!(get_toml_string(text, &["b", "d"]).unwrap(), None);
    assert_eq!(get_toml_string(text, &["a", "c"]).unwrap(), None);
    assert_eq!(get_toml_string(text, &["z"]).unwrap(), None);
    assert_eq!(get_toml_string(text, &["b"]).unwrap(), None);
    assert_eq!(get_toml_string(text, &[]).unwrap(), None);
}

#[test]
fn substitution_is_plain_text_replacement() {
    assert_eq!(replace_all("<string>Game</string> GameOver", "Game", "Demo"), "<string>Demo</string> DemoOver");
    assert_eq!(replace_all("aaa", "aa", "b"), "ba");
    assert_eq!(replace_all("abc", "x", "y"), "abc");
    assert_eq!(replace_all("", "x", "y"), "");
    assert_eq!(replace_all("é.é", ".", "/"), "é/é");
}

#[test]
fn token_value_elsewhere_in_template_is_replaced_too() {
    let edits = project_file_edits("com.example.demo", "Demo");
    let manifest = apply_edits(
        "<activity android:name=\"SDLActivity\"/> package=\"org.libsdl.app\" org.libsdl.app.SDLActivity",
        &edits[0].edits,
    );
    assert_eq!(
        manifest,
        "<activity android:name=\"MainActivity\"/> package=\"com.example.demo\" com.example.demo.MainActivity"
    );
    let strings_xml = apply_edits("<string name=\"app_name\">Game</string><!-- Game -->", &edits[2].edits);
    assert_eq!(strings_xml, "<string name=\"app_name\">Demo</string><!-- Demo -->");
}

#[test]
fn project_files_and_main_class() {
    let edits = project_file_edits("a.b", "T");
    assert_eq!(edits.len(), 3);
    assert_eq!(edits[0].file, "app/src/main/AndroidManifest.xml");
    assert_eq!(edits[1].file, "app/build.gradle");
    assert_eq!(edits[2].file, "app/src/main/res/values/strings.xml");
    let src = main_class_source("com.example.demo");
    assert!(src.contains("package com.example.demo;"));
    assert!(!src.contains("$APP"));
    assert_eq!(
        java_main_folder("/m", "com.example.demo"),
        "/m/target/android-project/app/src/main/java/com/example/demo"
    );
}

#[test]
fn libraries_go_to_abi_directories() {
    let arts = vec![
        ("aarch64-linux-android".to_string(), "/o/a.so".to_string()),
        ("i686-linux-android".to_string(), "/o/c.so".to_string()),
    ];
    let p = library_placements("/m", &arts).unwrap();
    assert_eq!(p[0], ("/o/a.so".to_string(), "/m/target/android-project/app/src/main/jniLibs/arm64-v8a".to_string()));
    assert_eq!(p[1], ("/o/c.so".to_string(), "/m/target/android-project/app/src/main/jniLibs/x86".to_string()));
    let bad = vec![("bogus".to_string(), "/o/x.so".to_string())];
    assert!(matches!(library_placements("/m", &bad), Err(BuildError::UnknownTarget(_))));
}

#[test]
fn profile_names_and_tasks() {
    assert_eq!(BuildProfile::Debug.to_string(), "debug");
    assert_eq!(BuildProfile::Release.to_string(), "release");
    assert_eq!(BuildProfile::Debug.gradle_task(), "assembleDebug");
    assert_eq!(BuildProfile::Release.gradle_task(), "assembleRelease");
    assert_eq!(BuildProfile::Debug.output_package(), "debug/app-debug.apk");
    assert_eq!(BuildProfile::Release.output_package(), "release/app-release.apk");
}

#[test]
fn release_signs_once_and_debug_never() {
    let release = packaging_stages(BuildProfile::Release);
    assert_eq!(release.iter().filter(|s| **s == PackagingStage::Signing).count(), 1);
    assert_eq!(
        release,
        vec![PackagingStage::Scaffolding, PackagingStage::PlacingArtifacts, PackagingStage::Assembling, PackagingStage::Signing]
    );
    let debug = packaging_stages(BuildProfile::Debug);
    assert_eq!(debug.iter().filter(|s| **s == PackagingStage::Signing).count(), 0);
    assert_eq!(next_stage(PackagingStage::Assembling, BuildProfile::Debug), PackagingStage::Done);
    assert_eq!(next_stage(PackagingStage::Signing, BuildProfile::Release), PackagingStage::Done);
}

#[test]
fn newest_build_tools_by_string_order() {
    assert_eq!(newest_build_tools(&strings(&["29.0.3", "30.0.3", "30.0.2"])).unwrap(), "30.0.3");
    assert_eq!(newest_build_tools(&strings(&["10.0.0", "9.0.0"])).unwrap(), "9.0.0");
    assert!(matches!(newest_build_tools(&Vec::new()), Err(BuildError::NoBuildTools)));
    assert!(text_less("30.0", "30.0.1"));
    assert!(!text_less("30.0.1", "30.0.1"));
}

#[test]
fn second_signing_reuses_keystore() {
    let dir = release_dir("/m");
    assert_eq!(dir, "/m/target/android-project/app/build/outputs/apk/release");
    let first = resolve_signing(None, None, &dir, false).unwrap();
    assert!(first.generate_key);
    assert_eq!(first.key_file, "/m/target/android-project/app/build/outputs/apk/release/app-release.jks");
    assert_eq!(first.key_pass, "pass:android");
    let second = resolve_signing(None, None, &dir, true).unwrap();
    assert!(!second.generate_key);
    assert_eq!(second.key_file, first.key_file);
    assert_eq!(apksigner_args(&first, &dir), apksigner_args(&second, &dir));
    assert_eq!(default_keystore_path(&dir), first.key_file);
}

#[test]
fn caller_keystore_needs_its_pass() {
    let e = resolve_signing(Some("k.jks".to_string()), None, "/r", false).unwrap_err();
    assert!(matches!(e, BuildError::MissingKeystorePassword));
    let p = resolve_signing(Some("k.jks".to_string()), Some("pass:x".to_string()), "/r", false).unwrap();
    assert_eq!(p.key_file, "k.jks");
    assert_eq!(p.key_pass, "pass:x");
    assert!(!p.generate_key);
}

#[test]
fn signing_tool_arguments() {
    assert_eq!(build_tool_path("/sdk", "30.0.3", "zipalign"), "/sdk/build-tools/30.0.3/zipalign");
    assert_eq!(
        zipalign_args("/r"),
        strings(&["-v", "-f", "-p", "4", "/r/app-release-unsigned.apk", "/r/app-release-unsigned-aligned.apk"])
    );
    let plan = resolve_signing(None, None, "/r", true).unwrap();
    assert_eq!(
        apksigner_args(&plan, "/r"),
        strings(&["sign", "-ks", "/r/app-release.jks", "-ks-pass", "pass:android", "-out", "/r/app-release.apk", "/r/app-release-unsigned-aligned.apk"])
    );
    let k = keytool_args("/r/app-release.jks");
    assert_eq!(k[0], "-genkey");
    assert_eq!(k[6], "/r/app-release.jks");
    assert_eq!(k.len(), 13);
}
