use vstd::prelude::*;
use crate::error::BuildError;
use crate::text::{join_path, joined, same_text};

verus! {

/// The Android ABI directory name of a supported target, if it is one.
pub open spec fn android_name_of(t: Seq<char>) -> Option<Seq<char>> {
    if t == "aarch64-linux-android"@ {
        Some("arm64-v8a"@)
    } else if t == "armv7-linux-androideabi"@ {
        Some("armeabi-v7a"@)
    } else if t == "i686-linux-android"@ {
        Some("x86"@)
    } else {
        None
    }
}

/// Where the linker of a supported target lies below the NDK root.
pub open spec fn linker_suffix_of(t: Seq<char>) -> Option<Seq<char>> {
    if t == "aarch64-linux-android"@ {
        Some("toolchains/llvm/prebuilt/linux-x86_64/bin/aarch64-linux-android26-clang"@)
    } else if t == "armv7-linux-androideabi"@ {
        Some("toolchains/llvm/prebuilt/linux-x86_64/bin/armv7a-linux-androideabi26-clang"@)
    } else if t == "i686-linux-android"@ {
        Some("toolchains/llvm/prebuilt/linux-x86_64/bin/i686-linux-android26-clang"@)
    } else {
        None
    }
}

/// Whether the target identifier is one of the supported set.
pub open spec fn is_supported(t: Seq<char>) -> bool {
    android_name_of(t) is Some
}

/// The full path of a supported target's linker below the NDK root.
pub open spec fn linker_path_of(ndk_home: Seq<char>, t: Seq<char>) -> Seq<char>
    recommends
        is_supported(t),
{
    joined(ndk_home, linker_suffix_of(t)->Some_0)
}

/// The targets that a full build covers, in build order.
pub open spec fn default_targets() -> Seq<Seq<char>> {
    seq!["aarch64-linux-android"@, "armv7-linux-androideabi"@, "i686-linux-android"@]
}

/// The plain views of a list of strings.
pub open spec fn views(v: Seq<String>) -> Seq<Seq<char>> {
    v.map_values(|s: String| s@)
}

/// The Android ABI name of a target, used to name library directories.
pub fn get_target_android_name(rust_target_name: &str) -> (r: Result<&'static str, BuildError>)
    ensures
        match r {
            Ok(n) => android_name_of(rust_target_name@) == Some(n@),
            Err(e) => android_name_of(rust_target_name@) is None
                && e.is_unknown_target(rust_target_name@),
        },
{
    if same_text(rust_target_name, "aarch64-linux-android") {
        Ok("arm64-v8a")
    } else if same_text(rust_target_name, "armv7-linux-androideabi") {
        Ok("armeabi-v7a")
    } else if same_text(rust_target_name, "i686-linux-android") {
        Ok("x86")
    } else {
        Err(BuildError::UnknownTarget(String::from_str(rust_target_name)))
    }
}

/// Where the linker of a target lies below the NDK root.
pub fn get_target_linker(rust_target_name: &str) -> (r: Result<&'static str, BuildError>)
    ensures
        match r {
            Ok(p) => linker_suffix_of(rust_target_name@) == Some(p@),
            Err(e) => !is_supported(rust_target_name@)
                && e.is_unknown_target(rust_target_name@),
        },
{
    if same_text(rust_target_name, "aarch64-linux-android") {
        Ok("toolchains/llvm/prebuilt/linux-x86_64/bin/aarch64-linux-android26-clang")
    } else if same_text(rust_target_name, "armv7-linux-androideabi") {
        Ok("toolchains/llvm/prebuilt/linux-x86_64/bin/armv7a-linux-androideabi26-clang")
    } else if same_text(rust_target_name, "i686-linux-android") {
        Ok("toolchains/llvm/prebuilt/linux-x86_64/bin/i686-linux-android26-clang")
    } else {
        Err(BuildError::UnknownTarget(String::from_str(rust_target_name)))
    }
}

/// The supported targets, in the order a full build covers them.
pub fn default_target_list() -> (r: Vec<String>)
    ensures
        views(r@) == default_targets(),
{
    let mut r: Vec<String> = Vec::new();
    r.push(String::from_str("aarch64-linux-android"));
    r.push(String::from_str("armv7-linux-androideabi"));
    r.push(String::from_str("i686-linux-android"));
    assert(views(r@) =~= default_targets());
    r
}

/// Resolves the linker of every requested target below the NDK root, in the
/// order given. Any unsupported identifier is reported before anything runs.
pub fn linker_table(ndk_home: &str, targets: &Vec<String>) -> (r: Result<
    Vec<(String, String)>,
    BuildError,
>)
    ensures
        match r {
            Ok(v) => (forall|i: int| 0 <= i < targets@.len() ==> is_supported(#[trigger] targets@[i]@))
                && v@.len() == targets@.len()
                && forall|i: int| 0 <= i < v@.len() ==> {
                    &&& (#[trigger] v@[i]).0@ == targets@[i]@
                    &&& v@[i].1@ == linker_path_of(ndk_home@, targets@[i]@)
                },
            Err(e) => exists|i: int| {
                &&& 0 <= i < targets@.len()
                &&& !is_supported(#[trigger] targets@[i]@)
                &&& e.is_unknown_target(targets@[i]@)
            },
        },
{
    let mut v: Vec<(String, String)> = Vec::new();
    let mut i: usize = 0;
    while i < targets.len()
        invariant
            i <= targets@.len(),
            v@.len() == i,
            forall|j: int| 0 <= j < i ==> is_supported(#[trigger] targets@[j]@),
            forall|j: int| 0 <= j < i ==> {
                &&& (#[trigger] v@[j]).0@ == targets@[j]@
                &&& v@[j].1@ == linker_path_of(ndk_home@, targets@[j]@)
            },
        decreases targets@.len() - i,
    {
        let t = &targets[i];
        let suffix = match get_target_linker(t.as_str()) {
            Ok(s) => s,
            Err(e) => {
                assert(!is_supported(targets@[i as int]@));
                return Err(e);
            },
        };
        let path = join_path(ndk_home, suffix);
        v.push((t.clone(), path));
        i = i + 1;
    }
    Ok(v)
}

} // verus!
