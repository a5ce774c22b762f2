use vstd::prelude::*;
use crate::deploy::{force_stop_args_of, pidof_args_of, start_args_of, activity_of};
use crate::error::BuildError;
use crate::manifest::{app_id_path, default_app_id, manifest_string_or, parsed_table, string_at};
use crate::profile::BuildProfile;
use crate::scaffold::project_edits_of;
use crate::targets::{android_name_of, get_target_android_name, views};
use crate::text::{join_path, joined, owned, same_text};

verus! {

/// The three install locations that every stage needs.
#[derive(Debug)]
pub struct Environment {
    /// The Android SDK (`ANDROID_HOME`).
    pub android_home: String,
    /// The Android NDK (`ANDROID_NDK_HOME`).
    pub ndk_home: String,
    /// The SDL source tree (`SDL`).
    pub sdl: String,
}

impl Environment {
    /// The environment, given the values of `ANDROID_HOME`,
    /// `ANDROID_NDK_HOME` and `SDL`. Fails with the first of them, in that
    /// order, that is not set.
    pub fn new(android_home: Option<String>, ndk_home: Option<String>, sdl: Option<String>) -> (r: Result<
        Environment,
        BuildError,
    >)
        ensures
            match (android_home, ndk_home, sdl) {
                (Some(a), Some(n), Some(s)) => r matches Ok(e) && e.android_home == a && e.ndk_home == n && e.sdl == s,
                (None, _, _) => r matches Err(BuildError::MissingEnvVar(k)) && k@ == "ANDROID_HOME"@,
                (Some(_), None, _) => r matches Err(BuildError::MissingEnvVar(k)) && k@ == "ANDROID_NDK_HOME"@,
                (Some(_), Some(_), None) => r matches Err(BuildError::MissingEnvVar(k)) && k@ == "SDL"@,
            },
    {
        let android_home = match android_home {
            Some(v) => v,
            None => {
                return Err(BuildError::MissingEnvVar(owned("ANDROID_HOME")));
            },
        };
        let ndk_home = match ndk_home {
            Some(v) => v,
            None => {
                return Err(BuildError::MissingEnvVar(owned("ANDROID_NDK_HOME")));
            },
        };
        let sdl = match sdl {
            Some(v) => v,
            None => {
                return Err(BuildError::MissingEnvVar(owned("SDL")));
            },
        };
        Ok(Environment { android_home, ndk_home, sdl })
    }
}

/// What the tool is asked to do.
#[derive(Clone, Copy, Debug, PartialEq, Eq, Structural)]
pub enum Command {
    /// Build the package.
    Build,
    /// Build the package and run it on the attached device.
    Run,
    /// Sign the release package that was built before.
    Sign,
}

impl Command {
    /// The command that the word `word` names. Fails for any other word.
    pub fn parse(word: &str) -> (r: Result<Command, BuildError>)
        ensures
            word@ == "build"@ ==> r == Ok::<Command, BuildError>(Command::Build),
            word@ == "run"@ ==> r == Ok::<Command, BuildError>(Command::Run),
            word@ == "sign"@ ==> r == Ok::<Command, BuildError>(Command::Sign),
            word@ != "build"@ && word@ != "run"@ && word@ != "sign"@ ==> (r matches Err(
                BuildError::UnknownCommand(w),
            ) && w@ == word@),
    {
        proof {
            reveal_strlit("build");
            reveal_strlit("run");
            reveal_strlit("sign");
            assert("build"@.len() == 5 && "run"@.len() == 3 && "sign"@.len() == 4);
        }
        if same_text(word, "build") {
            Ok(Command::Build)
        } else if same_text(word, "run") {
            Ok(Command::Run)
        } else if same_text(word, "sign") {
            Ok(Command::Sign)
        } else {
            Err(BuildError::UnknownCommand(owned(word)))
        }
    }
}

/// Which program of the package is built: its binary, or a named example.
#[derive(Debug)]
pub enum BuildTarget {
    Bin,
    Example(String),
}

impl BuildTarget {
    /// The example named, or else the binary.
    pub fn from_example(example: Option<String>) -> (r: BuildTarget)
        ensures
            match example {
                Some(e) => r matches BuildTarget::Example(x) && x == e,
                None => r matches BuildTarget::Bin,
            },
    {
        match example {
            Some(e) => BuildTarget::Example(e),
            None => BuildTarget::Bin,
        }
    }
}

/// The arguments of `ndk-build` that build SDL for every target.
pub open spec fn ndk_build_args_of() -> Seq<Seq<char>> {
    seq!["NDK_PROJECT_PATH=."@, "APP_BUILD_SCRIPT=./Android.mk"@, "APP_PLATFORM=android-18"@]
}

/// The arguments of `ndk-build` that build SDL for every target.
pub fn ndk_build_args() -> (r: Vec<String>)
    ensures
        views(r@) == ndk_build_args_of(),
{
    let r = vec![owned("NDK_PROJECT_PATH=."), owned("APP_BUILD_SCRIPT=./Android.mk"), owned("APP_PLATFORM=android-18")];
    assert(views(r@) =~= ndk_build_args_of());
    r
}

/// Where `ndk-build` lies in the NDK.
pub fn ndk_build_path(ndk_home: &str) -> (r: String)
    ensures
        r@ == joined(ndk_home@, "ndk-build"@),
{
    join_path(ndk_home, "ndk-build")
}

/// One built SDL library and where it is staged for a target.
#[derive(Debug)]
pub struct SdlStaging {
    /// The library that `ndk-build` made for the target's ABI.
    pub source: String,
    /// The directory that is created for it.
    pub dest_dir: String,
    /// The file it is copied to.
    pub dest: String,
}

/// The build output directory of `target` and `profile`.
pub open spec fn deps_dir_of(target: Seq<char>, profile: BuildProfile) -> Seq<char> {
    joined(joined(joined("target"@, target), profile.name()), "deps"@)
}

/// Where the SDL library of a supported target is taken from and staged.
pub open spec fn staging_of(sdl: Seq<char>, target: Seq<char>, profile: BuildProfile) -> (Seq<char>, Seq<char>, Seq<char>)
    recommends
        android_name_of(target) is Some,
{
    (
        joined(joined(joined(sdl, "libs"@), android_name_of(target)->Some_0), "libSDL2.so"@),
        deps_dir_of(target, profile),
        joined(joined(joined("target"@, target), profile.name()), "deps/libSDL2.so"@),
    )
}

/// For each target, in order, the SDL library that `ndk-build` made for it
/// and where it is staged for the build of `profile`. Fails with the first
/// target that is not supported.
pub fn sdl_staging(sdl: &str, targets: &Vec<String>, profile: BuildProfile) -> (r: Result<
    Vec<SdlStaging>,
    BuildError,
>)
    ensures
        match r {
            Ok(v) => v@.len() == targets@.len() && forall|i: int| 0 <= i < v@.len() ==> {
                &&& android_name_of(#[trigger] targets@[i]@) is Some
                &&& (v@[i].source@, v@[i].dest_dir@, v@[i].dest@) == staging_of(sdl@, targets@[i]@, profile)
            },
            Err(e) => exists|i: int| {
                &&& 0 <= i < targets@.len()
                &&& android_name_of(#[trigger] targets@[i]@) is None
                &&& e.is_unknown_target(targets@[i]@)
            },
        },
{
    let libs = join_path(sdl, "libs");
    let name = profile.to_string();
    let mut v: Vec<SdlStaging> = Vec::new();
    let mut i: usize = 0;
    while i < targets.len()
        invariant
            libs@ == joined(sdl@, "libs"@),
            name@ == profile.name(),
            i <= targets@.len(),
            v@.len() == i,
            forall|j: int| 0 <= j < i ==> {
                &&& android_name_of(#[trigger] targets@[j]@) is Some
                &&& (v@[j].source@, v@[j].dest_dir@, v@[j].dest@) == staging_of(sdl@, targets@[j]@, profile)
            },
        decreases targets@.len() - i,
    {
        let t = targets[i].as_str();
        let abi = get_target_android_name(t)?;
        let source = join_path(join_path(libs.as_str(), abi).as_str(), "libSDL2.so");
        let build = join_path(join_path("target", t).as_str(), name.as_str());
        let dest_dir = join_path(build.as_str(), "deps");
        let dest = join_path(build.as_str(), "deps/libSDL2.so");
        v.push(SdlStaging { source, dest_dir, dest });
        i = i + 1;
    }
    Ok(v)
}

/// The registry after the reports `reports` were recorded in turn into an
/// empty one.
pub open spec fn recorded(reports: Seq<(Seq<char>, Seq<char>)>) -> Map<Seq<char>, Seq<char>>
    decreases reports.len(),
{
    if reports.len() == 0 {
        Map::empty()
    } else {
        recorded(reports.drop_last()).insert(reports.last().0, reports.last().1)
    }
}

/// A build that reports one artifact for each of the requested targets, each
/// target once, leaves a registry with exactly one entry per requested target,
/// that target's artifact, and no other entry.
pub proof fn lemma_one_artifact_per_target(reports: Seq<(Seq<char>, Seq<char>)>, targets: Seq<Seq<char>>)
    requires
        reports.len() == targets.len(),
        forall|i: int| 0 <= i < reports.len() ==> (#[trigger] reports[i]).0 == targets[i],
        targets.no_duplicates(),
    ensures
        recorded(reports).dom() == targets.to_set(),
        forall|i: int| 0 <= i < targets.len() ==> recorded(reports)[#[trigger] targets[i]] == reports[i].1,
    decreases reports.len(),
{
    if reports.len() > 0 {
        let n = reports.len() - 1;
        let r0 = reports.drop_last();
        let t0 = targets.drop_last();
        assert forall|i: int, j: int| 0 <= i < t0.len() && 0 <= j < t0.len() && i != j implies t0[i] != t0[j] by {
            assert(t0[i] == targets[i] && t0[j] == targets[j]);
        }
        assert forall|i: int| 0 <= i < r0.len() implies (#[trigger] r0[i]).0 == t0[i] by {
            assert(r0[i] == reports[i]);
        }
        lemma_one_artifact_per_target(r0, t0);
        assert(recorded(reports).dom() =~= targets.to_set()) by {
            assert forall|k: Seq<char>| #[trigger] targets.to_set().contains(k) <==> recorded(reports).dom().contains(k) by {
                if targets.to_set().contains(k) {
                    let i = choose|i: int| 0 <= i < targets.len() && targets[i] == k;
                    if i < n {
                        assert(t0.to_set().contains(t0[i]));
                    }
                }
                if recorded(reports).dom().contains(k) && k != reports.last().0 {
                    assert(t0.to_set().contains(k));
                    let i = choose|i: int| 0 <= i < t0.len() && t0[i] == k;
                    assert(targets[i] == k);
                }
            }
        }
        assert forall|i: int| 0 <= i < targets.len() implies recorded(reports)[#[trigger] targets[i]] == reports[i].1 by {
            if i < n {
                assert(t0[i] == targets[i]);
                assert(targets[i] != targets[n]);
            }
        }
    } else {
        assert(recorded(reports).dom() =~= targets.to_set());
    }
}

/// A manifest that gives no application id makes the pipeline use the
/// default one throughout: it is the identity read, the package name
/// substituted into the build script, and the name that the device is asked
/// to stop, start and find.
pub proof fn lemma_default_identity(text: Seq<char>, title: Seq<char>)
    requires
        parsed_table(text) matches Some(t) && string_at(t, app_id_path()) is None,
    ensures
        manifest_string_or(text, app_id_path(), default_app_id()) == Ok::<Seq<char>, ()>(default_app_id()),
        project_edits_of(default_app_id(), title)[1].1 == seq![("org.libsdl.app"@, default_app_id())],
        force_stop_args_of(default_app_id())[3] == default_app_id(),
        start_args_of(default_app_id())[5] == activity_of(default_app_id()),
        pidof_args_of(default_app_id())[2] == default_app_id(),
{
}

} // verus!
