use sdl_apk::deploy::{decimal, install_args, logcat_args, parse_pid, start_args};
use sdl_apk::error::{BuildError, ErrorKind};
use sdl_apk::pipeline::{ndk_build_args, ndk_build_path, sdl_staging, BuildTarget, Command, Environment};
use sdl_apk::profile::BuildProfile;

fn strings(v: &[&str]) -> Vec<String> {
    v.iter().map(|s| s.to_string()).collect()
}

#[test]
fn pid_is_parsed_from_device_answer() {
    assert_eq!(parse_pid("1234\n").unwrap(), 1234);
    assert_eq!(parse_pid("  +7 \r\n").unwrap(), 7);
    assert_eq!(parse_pid("4294967295").unwrap(), u32::MAX);
    assert_eq!(parse_pid("0").unwrap(), 0);
}

#[test]
fn no_pid_is_process_not_found() {
    for bad in ["", "\n", "+", "12 34", "-3", "4294967296", "99999999999", "abc"] {
        let e = parse_pid(bad).unwrap_err();
        assert!(matches!(e, BuildError::ProcessNotFound), "{:?}", bad);
        assert_eq!(e.kind(), ErrorKind::ExternalTool);
    }
}

#[test]
fn decimal_digits() {
    assert_eq!(decimal(0), "0");
    assert_eq!(decimal(1234), "1234");
    assert_eq!(decimal(u32::MAX), "4294967295");
}

#[test]
fn device_bridge_arguments() {
    assert_eq!(
        install_args("/m", BuildProfile::Debug),
        strings(&["-d", "install", "-r", "/m/target/android-project/app/build/outputs/apk/debug/app-debug.apk"])
    );
    assert_eq!(
        start_args("com.example.demo"),
        strings(&["shell", "am", "start", "-W", "-n", "com.example.demo/.MainActivity"])
    );
    assert_eq!(logcat_args(812), strings(&["logcat", "-v", "color", "--pid", "812"]));
}

#[test]
fn environment_needs_all_three_locations() {
    let s = |v: &str| Some(v.to_string());
    let env = Environment::new(s("/sdk"), s("/ndk"), s("/sdl")).unwrap();
    assert_eq!(env.ndk_home, "/ndk");
    let e = Environment::new(None, None, None).unwrap_err();
    assert!(matches!(&e, BuildError::MissingEnvVar(k) if k == "ANDROID_HOME"));
    assert_eq!(e.kind(), ErrorKind::Configuration);
    let e = Environment::new(s("/sdk"), None, s("/sdl")).unwrap_err();
    assert!(matches!(&e, BuildError::MissingEnvVar(k) if k == "ANDROID_NDK_HOME"));
    let e = Environment::new(s("/sdk"), s("/ndk"), None).unwrap_err();
    assert!(matches!(&e, BuildError::MissingEnvVar(k) if k == "SDL"));
}

#[test]
fn commands_are_parsed() {
    assert_eq!(Command::parse("build").unwrap(), Command::Build);
    assert_eq!(Command::parse("run").unwrap(), Command::Run);
    assert_eq!(Command::parse("sign").unwrap(), Command::Sign);
    let e = Command::parse("deploy").unwrap_err();
    assert!(matches!(&e, BuildError::UnknownCommand(w) if w == "deploy"));
    assert!(matches!(BuildTarget::from_example(None), BuildTarget::Bin));
    assert!(matches!(BuildTarget::from_example(Some("demo".to_string())), BuildTarget::Example(x) if x == "demo"));
}

#[test]
fn sdl_libraries_are_staged_per_target() {
    assert_eq!(ndk_build_path("/ndk"), "/ndk/ndk-build");
    assert_eq!(
        ndk_build_args(),
        strings(&["NDK_PROJECT_PATH=.", "APP_BUILD_SCRIPT=./Android.mk", "APP_PLATFORM=android-18"])
    );
    let st = sdl_staging("/sdl", &strings(&["armv7-linux-androideabi"]), BuildProfile::Release).unwrap();
    assert_eq!(st[0].source, "/sdl/libs/armeabi-v7a/libSDL2.so");
    assert_eq!(st[0].dest_dir, "target/armv7-linux-androideabi/release/deps");
    assert_eq!(st[0].dest, "target/armv7-linux-androideabi/release/deps/libSDL2.so");
    assert!(matches!(
        sdl_staging("/sdl", &strings(&["bogus"]), BuildProfile::Debug),
        Err(BuildError::UnknownTarget(_))
    ));
}
