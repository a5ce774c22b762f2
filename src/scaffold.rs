use vstd::prelude::*;
use crate::error::BuildError;
use crate::intercept::pair_views;
use crate::targets::{android_name_of, get_target_android_name};
use crate::text::{join_path, joined, same_text};

verus! {

/// `s` with every occurrence of `from` replaced by `to`, the occurrences
/// taken from left to right without overlap.
pub open spec fn replaced(s: Seq<char>, from: Seq<char>, to: Seq<char>) -> Seq<char>
    decreases s.len(),
{
    if from.len() == 0 || s.len() < from.len() {
        s
    } else if s.subrange(0, from.len() as int) == from {
        to + replaced(s.skip(from.len() as int), from, to)
    } else {
        seq![s[0]] + replaced(s.skip(1), from, to)
    }
}

/// Replaces every occurrence of `from` in `s` by `to`, as `str::replace`
/// does for a pattern that is not empty.
pub fn replace_all(s: &str, from: &str, to: &str) -> (r: String)
    requires
        from@.len() > 0,
    ensures
        r@ == replaced(s@, from@, to@),
{
    let n = s.unicode_len();
    let m = from.unicode_len();
    let mut r = String::new();
    let mut i: usize = 0;
    assert(s@.skip(0) =~= s@);
    while i < n
        invariant
            n == s@.len(),
            m == from@.len(),
            m > 0,
            i <= n,
            replaced(s@, from@, to@) == r@ + replaced(s@.skip(i as int), from@, to@),
        decreases n - i,
    {
        let ghost rest = s@.skip(i as int);
        let ghost before = r@;
        if n - i < m {
            assert(replaced(rest, from@, to@) == rest);
            r.append(s.substring_char(i, n));
            assert(s@.subrange(i as int, n as int) =~= rest);
            assert(s@.skip(n as int) =~= Seq::<char>::empty());
            i = n;
        } else if same_text(s.substring_char(i, i + m), from) {
            assert(rest.subrange(0, m as int) =~= s@.subrange(i as int, i + m));
            assert(rest.skip(m as int) =~= s@.skip(i + m));
            r.append(to);
            i = i + m;
        } else {
            assert(rest.subrange(0, m as int) =~= s@.subrange(i as int, i + m));
            assert(rest.skip(1) =~= s@.skip(i + 1));
            r.append(s.substring_char(i, i + 1));
            assert(s@.subrange(i as int, i + 1) =~= seq![rest[0]]);
            i = i + 1;
        }
    }
    assert(s@.skip(n as int) =~= Seq::<char>::empty());
    r
}

/// Whether `from` occurs in `s` at position `i`.
pub open spec fn occurs_at(s: Seq<char>, i: int, from: Seq<char>) -> bool {
    0 <= i && i + from.len() <= s.len() && s.subrange(i, i + from.len()) == from
}

/// Substitution goes by text alone: any occurrence of the token is
/// replaced, whatever the text around it, so long as no earlier occurrence
/// overlaps it.
pub proof fn lemma_replace_matches_anywhere(u: Seq<char>, from: Seq<char>, to: Seq<char>, v: Seq<char>)
    requires
        from.len() > 0,
        forall|i: int| 0 <= i < u.len() ==> !occurs_at(u + from + v, i, from),
    ensures
        replaced(u + from + v, from, to) == u + to + replaced(v, from, to),
    decreases u.len(),
{
    let s = u + from + v;
    if u.len() == 0 {
        assert(s =~= from + v);
        assert(s.subrange(0, from.len() as int) =~= from);
        assert(s.skip(from.len() as int) =~= v);
        assert(u + to =~= to);
    } else {
        assert(!occurs_at(s, 0, from));
        let u1 = u.skip(1);
        assert(s.skip(1) =~= u1 + from + v);
        assert forall|i: int| 0 <= i < u1.len() implies !occurs_at(u1 + from + v, i, from) by {
            assert(!occurs_at(s, i + 1, from));
            assert((u1 + from + v).subrange(i, i + from.len()) =~= s.subrange(i + 1, i + 1 + from.len()));
        }
        lemma_replace_matches_anywhere(u1, from, to, v);
        assert(seq![u[0]] + (u1 + to + replaced(v, from, to)) =~= u + to + replaced(v, from, to));
    }
}

/// The source of the main activity template, with `$APP` for the package.
pub open spec fn main_class_template() -> Seq<char> {
    "\n\t\tpackage $APP;\n\n\t\timport org.libsdl.app.SDLActivity;\n\n\t\tpublic class MainActivity extends SDLActivity {\n\t\t}\n\t"@
}

/// The source of the main activity class of application `app_id`.
pub fn main_class_source(app_id: &str) -> (r: String)
    ensures
        r@ == replaced(main_class_template(), "$APP"@, app_id@),
{
    proof {
        reveal_strlit("$APP");
    }
    replace_all(
        "\n\t\tpackage $APP;\n\n\t\timport org.libsdl.app.SDLActivity;\n\n\t\tpublic class MainActivity extends SDLActivity {\n\t\t}\n\t",
        "$APP",
        app_id,
    )
}

/// The directory, below the manifest's directory, that holds the main
/// activity of application `app_id`: one directory level per dot.
pub open spec fn java_dir_of(manifest_dir: Seq<char>, app_id: Seq<char>) -> Seq<char> {
    joined(joined(manifest_dir, "target/android-project/app/src/main/java"@), replaced(app_id, "."@, "/"@))
}

/// The directory that holds the main activity of application `app_id`.
pub fn java_main_folder(manifest_dir: &str, app_id: &str) -> (r: String)
    ensures
        r@ == java_dir_of(manifest_dir@, app_id@),
{
    proof {
        reveal_strlit(".");
    }
    let base = join_path(manifest_dir, "target/android-project/app/src/main/java");
    let rel = replace_all(app_id, ".", "/");
    join_path(base.as_str(), rel.as_str())
}

/// `content` after each replacement of `edits` in turn.
pub open spec fn edited(content: Seq<char>, edits: Seq<(Seq<char>, Seq<char>)>) -> Seq<char>
    decreases edits.len(),
{
    if edits.len() == 0 {
        content
    } else {
        edited(replaced(content, edits[0].0, edits[0].1), edits.skip(1))
    }
}

/// Applies each replacement of `edits` in turn to `content`.
pub fn apply_edits(content: &str, edits: &Vec<(String, String)>) -> (r: String)
    requires
        forall|i: int| 0 <= i < edits@.len() ==> (#[trigger] edits@[i]).0@.len() > 0,
    ensures
        r@ == edited(content@, pair_views(edits@)),
{
    let ghost e = pair_views(edits@);
    let mut r = String::from_str(content);
    let mut i: usize = 0;
    assert(e.skip(0) =~= e);
    while i < edits.len()
        invariant
            e == pair_views(edits@),
            i <= edits@.len(),
            forall|j: int| 0 <= j < edits@.len() ==> (#[trigger] edits@[j]).0@.len() > 0,
            edited(content@, e) == edited(r@, e.skip(i as int)),
        decreases edits@.len() - i,
    {
        let ghost rest = e.skip(i as int);
        assert(rest[0] == (edits@[i as int].0@, edits@[i as int].1@));
        assert(rest.skip(1) =~= e.skip(i + 1));
        r = replace_all(r.as_str(), edits[i].0.as_str(), edits[i].1.as_str());
        i = i + 1;
    }
    assert(e.skip(i as int) =~= Seq::<(Seq<char>, Seq<char>)>::empty());
    r
}

/// One file of the project template with the replacements made in it.
#[derive(Debug)]
pub struct ProjectFileEdit {
    /// The file, relative to the project's root.
    pub file: String,
    /// The replacements, made in this order.
    pub edits: Vec<(String, String)>,
}

/// The files of the project template that are filled in for an application,
/// with their replacements.
pub open spec fn project_edits_of(app_id: Seq<char>, title: Seq<char>) -> Seq<(Seq<char>, Seq<(Seq<char>, Seq<char>)>)> {
    seq![
        ("app/src/main/AndroidManifest.xml"@, seq![("SDLActivity"@, "MainActivity"@), ("org.libsdl.app"@, app_id)]),
        ("app/build.gradle"@, seq![("org.libsdl.app"@, app_id)]),
        ("app/src/main/res/values/strings.xml"@, seq![("Game"@, title)]),
    ]
}

/// The plain view of a list of file edits.
pub open spec fn edit_views(v: Seq<ProjectFileEdit>) -> Seq<(Seq<char>, Seq<(Seq<char>, Seq<char>)>)> {
    v.map_values(|f: ProjectFileEdit| (f.file@, pair_views(f.edits@)))
}

fn pair(a: &str, b: &str) -> (r: (String, String))
    ensures
        r.0@ == a@,
        r.1@ == b@,
{
    (String::from_str(a), String::from_str(b))
}

/// The files of the project template that are filled in for application
/// `app_id` with display name `title`, with their replacements. Every
/// pattern replaced is a nonempty literal.
pub fn project_file_edits(app_id: &str, title: &str) -> (r: Vec<ProjectFileEdit>)
    ensures
        edit_views(r@) == project_edits_of(app_id@, title@),
        forall|i: int, j: int| 0 <= i < r@.len() && 0 <= j < r@[i].edits@.len()
            ==> (#[trigger] r@[i].edits@[j]).0@.len() > 0,
{
    proof {
        reveal_strlit("SDLActivity");
        reveal_strlit("org.libsdl.app");
        reveal_strlit("Game");
    }
    let manifest = ProjectFileEdit {
        file: String::from_str("app/src/main/AndroidManifest.xml"),
        edits: vec![pair("SDLActivity", "MainActivity"), pair("org.libsdl.app", app_id)],
    };
    let gradle = ProjectFileEdit {
        file: String::from_str("app/build.gradle"),
        edits: vec![pair("org.libsdl.app", app_id)],
    };
    let strings = ProjectFileEdit {
        file: String::from_str("app/src/main/res/values/strings.xml"),
        edits: vec![pair("Game", title)],
    };
    assert(pair_views(manifest.edits@) =~= seq![("SDLActivity"@, "MainActivity"@), ("org.libsdl.app"@, app_id@)]);
    assert(pair_views(gradle.edits@) =~= seq![("org.libsdl.app"@, app_id@)]);
    assert(pair_views(strings.edits@) =~= seq![("Game"@, title@)]);
    let r = vec![manifest, gradle, strings];
    assert(edit_views(r@) =~= project_edits_of(app_id@, title@));
    r
}

/// Where the library of a target goes in the project: the ABI directory
/// below the project's `jniLibs`.
pub open spec fn jni_dir_of(manifest_dir: Seq<char>, target: Seq<char>) -> Seq<char>
    recommends
        android_name_of(target) is Some,
{
    joined(joined(manifest_dir, "target/android-project/app/src/main/jniLibs"@), android_name_of(target)->Some_0)
}

/// For each built artifact, as pairs of target and path, the directory of
/// the project that it is copied into as `libmain.so`, in the same order.
/// Fails with the first target that is not supported.
pub fn library_placements(manifest_dir: &str, artifacts: &Vec<(String, String)>) -> (r: Result<
    Vec<(String, String)>,
    BuildError,
>)
    ensures
        match r {
            Ok(v) => v@.len() == artifacts@.len() && forall|i: int| 0 <= i < v@.len() ==> {
                &&& android_name_of((#[trigger] artifacts@[i]).0@) is Some
                &&& v@[i].0@ == artifacts@[i].1@
                &&& v@[i].1@ == jni_dir_of(manifest_dir@, artifacts@[i].0@)
            },
            Err(e) => exists|i: int| {
                &&& 0 <= i < artifacts@.len()
                &&& android_name_of((#[trigger] artifacts@[i]).0@) is None
                &&& e.is_unknown_target(artifacts@[i].0@)
            },
        },
{
    let libs = join_path(manifest_dir, "target/android-project/app/src/main/jniLibs");
    let mut v: Vec<(String, String)> = Vec::new();
    let mut i: usize = 0;
    while i < artifacts.len()
        invariant
            libs@ == joined(manifest_dir@, "target/android-project/app/src/main/jniLibs"@),
            i <= artifacts@.len(),
            v@.len() == i,
            forall|j: int| 0 <= j < i ==> {
                &&& android_name_of((#[trigger] artifacts@[j]).0@) is Some
                &&& v@[j].0@ == artifacts@[j].1@
                &&& v@[j].1@ == jni_dir_of(manifest_dir@, artifacts@[j].0@)
            },
        decreases artifacts@.len() - i,
    {
        let abi = get_target_android_name(artifacts[i].0.as_str())?;
        v.push((artifacts[i].1.clone(), join_path(libs.as_str(), abi)));
        i = i + 1;
    }
    Ok(v)
}

} // verus!
