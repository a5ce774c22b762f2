use sdl_apk::error::{BuildError, ErrorKind};
use sdl_apk::intercept::{first_line, LibExecutor};
use sdl_apk::registry::ArtifactRegistry;
use sdl_apk::targets::{default_target_list, get_target_android_name, get_target_linker, linker_table};

fn strings(v: &[&str]) -> Vec<String> {
    v.iter().map(|s| s.to_string()).collect()
}

fn executor_for(pairs: &[(&str, &str)]) -> LibExecutor {
    LibExecutor::new(pairs.iter().map(|(a, b)| (a.to_string(), b.to_string())).collect())
}

#[test]
fn android_names_of_supported_targets() {
    assert_eq!(get_target_android_name("aarch64-linux-android").unwrap(), "arm64-v8a");
    assert_eq!(get_target_android_name("armv7-linux-androideabi").unwrap(), "armeabi-v7a");
    assert_eq!(get_target_android_name("i686-linux-android").unwrap(), "x86");
}

#[test]
fn unknown_target_is_a_configuration_error() {
    let e = get_target_android_name("bogus").unwrap_err();
    assert!(matches!(&e, BuildError::UnknownTarget(t) if t == "bogus"));
    assert_eq!(e.kind(), ErrorKind::Configuration);
    assert!(matches!(get_target_linker("bogus"), Err(BuildError::UnknownTarget(_))));
}

#[test]
fn linker_table_rejects_bogus_target_before_building() {
    let targets = strings(&["aarch64-linux-android", "bogus", "i686-linux-android"]);
    let e = linker_table("/ndk", &targets).unwrap_err();
    assert!(matches!(&e, BuildError::UnknownTarget(t) if t == "bogus"));
    assert_eq!(e.kind(), ErrorKind::Configuration);
}

#[test]
fn linker_table_joins_ndk_root() {
    let table = linker_table("/ndk", &default_target_list()).unwrap();
    assert_eq!(table.len(), 3);
    assert_eq!(table[0].0, "aarch64-linux-android");
    assert_eq!(
        table[0].1,
        "/ndk/toolchains/llvm/prebuilt/linux-x86_64/bin/aarch64-linux-android26-clang"
    );
    assert_eq!(
        table[1].1,
        "/ndk/toolchains/llvm/prebuilt/linux-x86_64/bin/armv7a-linux-androideabi26-clang"
    );
    let slash = linker_table("/ndk/", &strings(&["i686-linux-android"])).unwrap();
    assert_eq!(
        slash[0].1,
        "/ndk/toolchains/llvm/prebuilt/linux-x86_64/bin/i686-linux-android26-clang"
    );
}

#[test]
fn rewrite_keeps_arguments_in_order() {
    let ex = executor_for(&[("t1", "/ndk/clang1")]);
    let args = strings(&[
        "--crate-name", "main", "--edition=2021", "src/main.rs", "--crate-type", "bin",
        "--out-dir", "/o", "--target", "t1", "-C", "opt-level=0",
    ]);
    let w = ex.rewrite(&args).unwrap();
    assert_eq!(
        w.args,
        strings(&[
            "--crate-name", "main", "--edition=2021", "src/main.rs", "--crate-type", "dylib",
            "--out-dir", "/o", "--target", "t1", "-C", "opt-level=0", "-C", "linker=/ndk/clang1",
        ])
    );
    assert_eq!(w.out_dir, "/o");
    assert_eq!(w.target, "t1");
}

#[test]
fn rewrite_leaves_other_crate_types() {
    let ex = executor_for(&[("t1", "l")]);
    let args = strings(&["--crate-type", "lib", "--target", "t1", "bin"]);
    let w = ex.rewrite(&args).unwrap();
    assert_eq!(w.args, strings(&["--crate-type", "lib", "--target", "t1", "bin", "-C", "linker=l"]));
    assert_eq!(w.out_dir, "");
}

#[test]
fn rewrite_without_target_fails() {
    let ex = executor_for(&[("t1", "l")]);
    let e = ex.rewrite(&strings(&["--crate-type", "bin"])).unwrap_err();
    assert!(matches!(&e, BuildError::UnknownTarget(t) if t.is_empty()));
}

#[test]
fn rewrite_with_unknown_linker_fails() {
    let ex = executor_for(&[("t1", "l")]);
    let e = ex.rewrite(&strings(&["--target", "t9"])).unwrap_err();
    assert!(matches!(&e, BuildError::UnknownTarget(t) if t == "t9"));
}

#[test]
fn first_linker_entry_wins() {
    let ex = executor_for(&[("t1", "a"), ("t1", "b")]);
    assert_eq!(ex.linker_of("t1"), Some("a".to_string()));
    assert_eq!(ex.linker_of("t2"), None);
}

#[test]
fn only_plain_binary_builds_are_intercepted() {
    assert!(LibExecutor::intercepts(true, true));
    assert!(!LibExecutor::intercepts(false, true));
    assert!(!LibExecutor::intercepts(true, false));
}

#[test]
fn file_name_query_appends_print_request() {
    let q = LibExecutor::file_name_query(&strings(&["a", "-C", "linker=l"]));
    assert_eq!(q, strings(&["a", "-C", "linker=l", "--print", "file-names"]));
}

#[test]
fn artifact_path_uses_first_printed_line() {
    assert_eq!(LibExecutor::artifact_path("/o", "libmain.so\nextra\n").unwrap(), "/o/libmain.so");
    assert_eq!(LibExecutor::artifact_path("/o/", "a.so\r\n").unwrap(), "/o/a.so");
    assert_eq!(LibExecutor::artifact_path("", "a.so").unwrap(), "a.so");
    let e = LibExecutor::artifact_path("/o", "").unwrap_err();
    assert!(matches!(e, BuildError::MissingFileName));
    assert_eq!(e.kind(), ErrorKind::ArtifactResolution);
}

#[test]
fn first_line_follows_lines() {
    assert_eq!(first_line("x\r\ny"), Some("x".to_string()));
    assert_eq!(first_line("x\r"), Some("x\r".to_string()));
    assert_eq!(first_line("\nabc"), Some(String::new()));
    assert_eq!(first_line(""), None);
}

#[test]
fn two_targets_give_registry_of_their_artifacts() {
    let ex = executor_for(&[("t1", "/ndk/l1"), ("t2", "/ndk/l2")]);
    let mut reg = ArtifactRegistry::new();
    for (t, printed) in [("t1", "a.so\n"), ("t2", "b.so\n")] {
        let out = format!("/w/target/{}/debug/deps", t);
        let args = strings(&["--crate-type", "bin", "--out-dir", &out, "--target", t]);
        let w = ex.rewrite(&args).unwrap();
        let path = LibExecutor::artifact_path(&w.out_dir, printed).unwrap();
        reg.record(w.target, path).unwrap();
    }
    let all = reg.collect(&strings(&["t1", "t2"])).unwrap();
    assert_eq!(
        all,
        vec![
            ("t1".to_string(), "/w/target/t1/debug/deps/a.so".to_string()),
            ("t2".to_string(), "/w/target/t2/debug/deps/b.so".to_string()),
        ]
    );
}

#[test]
fn registry_is_written_once_per_target() {
    let mut reg = ArtifactRegistry::new();
    reg.record("t1".to_string(), "/a".to_string()).unwrap();
    let e = reg.record("t1".to_string(), "/b".to_string()).unwrap_err();
    assert!(matches!(&e, BuildError::DuplicateArtifact(t) if t == "t1"));
    assert_eq!(reg.get("t1"), Some("/a".to_string()));
    assert_eq!(reg.get("t2"), None);
}

#[test]
fn missing_target_in_registry_is_an_error() {
    let mut reg = ArtifactRegistry::new();
    reg.record("t1".to_string(), "/a".to_string()).unwrap();
    let e = reg.collect(&strings(&["t1", "t2", "t3"])).unwrap_err();
    assert!(matches!(&e, BuildError::MissingArtifact(t) if t == "t2"));
    assert_eq!(e.kind(), ErrorKind::ArtifactResolution);
    assert_eq!(reg.collect(&Vec::new()).unwrap(), vec![]);
}
