use vstd::prelude::*;
use crate::error::BuildError;
use crate::targets::views;
use crate::text::{join_path, joined, owned};

verus! {

/// Whether `a` comes before `b` in the order of their characters, as
/// strings compare.
pub open spec fn text_lt(a: Seq<char>, b: Seq<char>) -> bool
    decreases a.len(),
{
    if b.len() == 0 {
        false
    } else if a.len() == 0 {
        true
    } else if a[0] != b[0] {
        (a[0] as int) < (b[0] as int)
    } else {
        text_lt(a.skip(1), b.skip(1))
    }
}

proof fn lemma_text_lt_total(a: Seq<char>, b: Seq<char>)
    ensures
        a != b ==> (text_lt(a, b) || text_lt(b, a)),
        !(text_lt(a, b) && text_lt(b, a)),
        !text_lt(a, a),
    decreases a.len(),
{
    if a.len() > 0 && b.len() > 0 {
        lemma_text_lt_total(a.skip(1), b.skip(1));
        if a[0] != b[0] {
            assert((a[0] as int) != (b[0] as int));
        }
        if a[0] == b[0] && a != b {
            assert(a =~= seq![a[0]] + a.skip(1));
            assert(b =~= seq![b[0]] + b.skip(1));
        }
    } else if a.len() == 0 && b.len() == 0 {
        assert(a =~= b);
    }
    if a.len() > 0 {
        lemma_text_lt_total(a.skip(1), a.skip(1));
    }
}

proof fn lemma_text_lt_trans(a: Seq<char>, b: Seq<char>, c: Seq<char>)
    requires
        text_lt(a, b),
        text_lt(b, c),
    ensures
        text_lt(a, c),
    decreases a.len(),
{
    if a.len() > 0 && b.len() > 0 && c.len() > 0 && a[0] == b[0] && b[0] == c[0] {
        lemma_text_lt_trans(a.skip(1), b.skip(1), c.skip(1));
    }
}

/// Whether `a` comes before `b` as strings compare.
pub fn text_less(a: &str, b: &str) -> (r: bool)
    ensures
        r == text_lt(a@, b@),
{
    let n = a.unicode_len();
    let m = b.unicode_len();
    let mut i: usize = 0;
    assert(a@.skip(0) =~= a@);
    assert(b@.skip(0) =~= b@);
    while i < n && i < m
        invariant
            n == a@.len(),
            m == b@.len(),
            i <= n,
            i <= m,
            text_lt(a@, b@) == text_lt(a@.skip(i as int), b@.skip(i as int)),
        decreases n - i,
    {
        let x = a.get_char(i);
        let y = b.get_char(i);
        if x != y {
            return x < y;
        }
        assert(a@.skip(i as int).skip(1) =~= a@.skip(i + 1));
        assert(b@.skip(i as int).skip(1) =~= b@.skip(i + 1));
        i = i + 1;
    }
    i < m
}

/// The greatest of the installed build-tools versions, as strings compare:
/// the version that signing uses. Fails when none is installed.
pub fn newest_build_tools(versions: &Vec<String>) -> (r: Result<String, BuildError>)
    ensures
        match r {
            Ok(v) => views(versions@).contains(v@)
                && forall|i: int| 0 <= i < versions@.len() ==> !text_lt(v@, #[trigger] versions@[i]@),
            Err(e) => versions@.len() == 0 && e matches BuildError::NoBuildTools,
        },
{
    if versions.len() == 0 {
        return Err(BuildError::NoBuildTools);
    }
    let mut best: usize = 0;
    let mut i: usize = 1;
    proof {
        lemma_text_lt_total(versions@[0]@, versions@[0]@);
    }
    while i < versions.len()
        invariant
            1 <= i <= versions@.len(),
            best < i,
            forall|j: int| 0 <= j < i ==> !text_lt(versions@[best as int]@, #[trigger] versions@[j]@),
        decreases versions@.len() - i,
    {
        if text_less(versions[best].as_str(), versions[i].as_str()) {
            proof {
                assert forall|j: int| 0 <= j <= i implies !text_lt(versions@[i as int]@, #[trigger] versions@[j]@) by {
                    lemma_text_lt_total(versions@[i as int]@, versions@[j]@);
                    lemma_text_lt_total(versions@[best as int]@, versions@[j]@);
                    if text_lt(versions@[i as int]@, versions@[j]@) {
                        lemma_text_lt_trans(versions@[best as int]@, versions@[i as int]@, versions@[j]@);
                    }
                }
            }
            best = i;
        }
        i = i + 1;
    }
    assert(views(versions@)[best as int] == versions@[best as int]@);
    Ok(versions[best].clone())
}

/// Where a release build's outputs lie below the manifest's directory.
pub open spec fn release_dir_of(manifest_dir: Seq<char>) -> Seq<char> {
    joined(manifest_dir, "target/android-project/app/build/outputs/apk/release"@)
}

/// Where the self-generated keystore lies in the release output directory.
pub open spec fn keystore_path_of(release_dir: Seq<char>) -> Seq<char> {
    joined(release_dir, "app-release.jks"@)
}

/// The passphrase argument of a self-generated keystore.
pub open spec fn generated_pass() -> Seq<char> {
    "pass:android"@
}

/// Where a release build's outputs lie below the manifest's directory.
pub fn release_dir(manifest_dir: &str) -> (r: String)
    ensures
        r@ == release_dir_of(manifest_dir@),
{
    join_path(manifest_dir, "target/android-project/app/build/outputs/apk/release")
}

/// Where the self-generated keystore lies in the release output directory.
pub fn default_keystore_path(release_dir: &str) -> (r: String)
    ensures
        r@ == keystore_path_of(release_dir@),
{
    join_path(release_dir, "app-release.jks")
}

/// The keystore that signing uses, and whether it has to be made first.
#[derive(Debug)]
pub struct SigningPlan {
    pub key_file: String,
    pub key_pass: String,
    /// Whether a new self-signed keystore is generated at `key_file`.
    pub generate_key: bool,
}

/// The keystore, passphrase and generation decision of a signing run, given
/// the caller's keystore and passphrase, if any, and whether the keystore
/// file at the default place exists.
pub open spec fn signing_plan_of(
    ks_file: Option<Seq<char>>,
    ks_pass: Option<Seq<char>>,
    release_dir: Seq<char>,
    keystore_exists: bool,
) -> Option<(Seq<char>, Seq<char>, bool)> {
    match ks_file {
        Some(f) => match ks_pass {
            Some(p) => Some((f, p, false)),
            None => None,
        },
        None => Some((keystore_path_of(release_dir), generated_pass(), !keystore_exists)),
    }
}

/// The plain view of an optional string.
pub open spec fn opt_view(o: Option<String>) -> Option<Seq<char>> {
    match o {
        Some(s) => Some(s@),
        None => None,
    }
}

/// Decides which keystore signs the package: the caller's, which then needs
/// its passphrase, or else the self-signed one at the default place, which is
/// generated only when it does not exist yet.
pub fn resolve_signing(
    ks_file: Option<String>,
    ks_pass: Option<String>,
    release_dir: &str,
    keystore_exists: bool,
) -> (r: Result<SigningPlan, BuildError>)
    ensures
        match signing_plan_of(opt_view(ks_file), opt_view(ks_pass), release_dir@, keystore_exists) {
            Some((f, p, g)) => r matches Ok(x) && x.key_file@ == f && x.key_pass@ == p && x.generate_key == g,
            None => r matches Err(BuildError::MissingKeystorePassword),
        },
{
    match ks_file {
        Some(f) => match ks_pass {
            Some(p) => Ok(SigningPlan { key_file: f, key_pass: p, generate_key: false }),
            None => Err(BuildError::MissingKeystorePassword),
        },
        None => Ok(
            SigningPlan {
                key_file: default_keystore_path(release_dir),
                key_pass: owned("pass:android"),
                generate_key: !keystore_exists,
            },
        ),
    }
}

/// Signing twice in the same place without a keystore of the caller's
/// makes the keystore on the first run only where it is missing, and the
/// second run, which finds it, reuses the same file with the same
/// passphrase, and still signs.
pub proof fn lemma_signing_reuses_keystore(ks_pass: Option<Seq<char>>, release_dir: Seq<char>, first_exists: bool)
    ensures
        signing_plan_of(None, ks_pass, release_dir, first_exists) matches Some((f1, p1, g1)) && {
            &&& g1 == !first_exists
            &&& signing_plan_of(None, ks_pass, release_dir, true) == Some((f1, p1, false))
        },
{
}

/// The path of a tool of build-tools `version` in the SDK.
pub open spec fn build_tool_of(android_home: Seq<char>, version: Seq<char>, tool: Seq<char>) -> Seq<char> {
    joined(joined(joined(android_home, "build-tools"@), version), tool)
}

/// The path of a tool of build-tools `version` in the SDK.
pub fn build_tool_path(android_home: &str, version: &str, tool: &str) -> (r: String)
    ensures
        r@ == build_tool_of(android_home@, version@, tool@),
{
    let d = join_path(android_home, "build-tools");
    let d = join_path(d.as_str(), version);
    join_path(d.as_str(), tool)
}

/// The arguments of `keytool` that generate the self-signed keystore.
pub open spec fn keytool_args_of(key_path: Seq<char>) -> Seq<Seq<char>> {
    seq![
        "-genkey"@, "-dname"@, "CN=Unknown, OU=Unknown, O=Unknown, L=Unknown, S=Unknown, C=Unknown"@,
        "-storepass"@, "android"@, "-keystore"@, key_path, "-keyalg"@, "RSA"@,
        "-keysize"@, "2048"@, "-validity"@, "10000"@,
    ]
}

/// The arguments of `keytool` that generate the self-signed keystore.
pub fn keytool_args(key_path: &str) -> (r: Vec<String>)
    ensures
        views(r@) == keytool_args_of(key_path@),
{
    let r = vec![
        owned("-genkey"), owned("-dname"),
        owned("CN=Unknown, OU=Unknown, O=Unknown, L=Unknown, S=Unknown, C=Unknown"),
        owned("-storepass"), owned("android"), owned("-keystore"), owned(key_path),
        owned("-keyalg"), owned("RSA"), owned("-keysize"), owned("2048"),
        owned("-validity"), owned("10000"),
    ];
    assert(views(r@) =~= keytool_args_of(key_path@));
    r
}

/// The arguments of `zipalign` that align the unsigned release package.
pub open spec fn zipalign_args_of(release_dir: Seq<char>) -> Seq<Seq<char>> {
    seq![
        "-v"@, "-f"@, "-p"@, "4"@,
        joined(release_dir, "app-release-unsigned.apk"@),
        joined(release_dir, "app-release-unsigned-aligned.apk"@),
    ]
}

/// The arguments of `zipalign` that align the unsigned release package.
pub fn zipalign_args(release_dir: &str) -> (r: Vec<String>)
    ensures
        views(r@) == zipalign_args_of(release_dir@),
{
    let r = vec![
        owned("-v"), owned("-f"), owned("-p"), owned("4"),
        join_path(release_dir, "app-release-unsigned.apk"),
        join_path(release_dir, "app-release-unsigned-aligned.apk"),
    ];
    assert(views(r@) =~= zipalign_args_of(release_dir@));
    r
}

/// The arguments of `apksigner` that sign the aligned package into the
/// final release package.
pub open spec fn apksigner_args_of(key_file: Seq<char>, key_pass: Seq<char>, release_dir: Seq<char>) -> Seq<Seq<char>> {
    seq![
        "sign"@, "-ks"@, key_file, "-ks-pass"@, key_pass, "-out"@,
        joined(release_dir, "app-release.apk"@),
        joined(release_dir, "app-release-unsigned-aligned.apk"@),
    ]
}

/// The arguments of `apksigner` that sign the aligned package.
pub fn apksigner_args(plan: &SigningPlan, release_dir: &str) -> (r: Vec<String>)
    ensures
        views(r@) == apksigner_args_of(plan.key_file@, plan.key_pass@, release_dir@),
{
    let r = vec![
        owned("sign"), owned("-ks"), plan.key_file.clone(), owned("-ks-pass"),
        plan.key_pass.clone(), owned("-out"),
        join_path(release_dir, "app-release.apk"),
        join_path(release_dir, "app-release-unsigned-aligned.apk"),
    ];
    assert(views(r@) =~= apksigner_args_of(plan.key_file@, plan.key_pass@, release_dir@));
    r
}

} // verus!
