use vstd::prelude::*;
use crate::error::BuildError;
use crate::text::{concat, join_path, joined, same_text};
use crate::targets::views;

verus! {

/// One lookup in a list of pairs: the value of the first pair with key `k`.
pub open spec fn lookup(entries: Seq<(Seq<char>, Seq<char>)>, k: Seq<char>) -> Option<Seq<char>>
    decreases entries.len(),
{
    if entries.len() == 0 {
        None
    } else if entries[0].0 == k {
        Some(entries[0].1)
    } else {
        lookup(entries.skip(1), k)
    }
}

/// The plain views of a list of string pairs.
pub open spec fn pair_views(v: Seq<(String, String)>) -> Seq<(Seq<char>, Seq<char>)> {
    v.map_values(|p: (String, String)| (p.0@, p.1@))
}

/// Whether the arguments at `i` are `--crate-type bin`, which the rewrite
/// turns into a library build.
pub open spec fn is_bin_crate_type(args: Seq<Seq<char>>, i: int) -> bool {
    0 <= i && i + 1 < args.len() && args[i] == "--crate-type"@ && args[i + 1] == "bin"@
}

/// Whether the argument at `i` is `--out-dir` or `--target` followed by its
/// value, which the rewrite reads and keeps as they are.
pub open spec fn is_valued_flag(args: Seq<Seq<char>>, i: int) -> bool {
    0 <= i && i + 1 < args.len() && (args[i] == "--out-dir"@ || args[i] == "--target"@)
}

/// The compiler arguments from position `i` on, with `--crate-type bin`
/// turned into `--crate-type dylib`.
pub open spec fn rewritten_from(args: Seq<Seq<char>>, i: int) -> Seq<Seq<char>>
    decreases args.len() - i,
{
    if i < 0 || i >= args.len() {
        seq![]
    } else if is_bin_crate_type(args, i) {
        seq!["--crate-type"@, "dylib"@] + rewritten_from(args, i + 2)
    } else if is_valued_flag(args, i) {
        seq![args[i], args[i + 1]] + rewritten_from(args, i + 2)
    } else {
        seq![args[i]] + rewritten_from(args, i + 1)
    }
}

/// Whether the rewritten argument `r` stands where `args` held the argument
/// at `j`: it is the same argument, or it is the `dylib` that replaced a
/// `bin` right after `--crate-type`.
pub open spec fn kept_or_made_dylib(args: Seq<Seq<char>>, j: int, r: Seq<char>) -> bool {
    r == args[j] || (j > 0 && args[j - 1] == "--crate-type"@ && args[j] == "bin"@ && r == "dylib"@)
}

proof fn lemma_rewritten_from(args: Seq<Seq<char>>, i: int)
    requires
        0 <= i <= args.len(),
    ensures
        rewritten_from(args, i).len() == args.len() - i,
        forall|j: int| i <= j < args.len() ==> kept_or_made_dylib(args, j, #[trigger] rewritten_from(args, i)[j - i]),
    decreases args.len() - i,
{
    if i < args.len() {
        if is_bin_crate_type(args, i) || is_valued_flag(args, i) {
            lemma_rewritten_from(args, i + 2);
            let r = rewritten_from(args, i);
            let rest = rewritten_from(args, i + 2);
            assert forall|j: int| i <= j < args.len() implies kept_or_made_dylib(args, j, #[trigger] r[j - i]) by {
                if j >= i + 2 {
                    assert(r[j - i] == rest[j - (i + 2)]);
                }
            }
        } else {
            lemma_rewritten_from(args, i + 1);
            let r = rewritten_from(args, i);
            let rest = rewritten_from(args, i + 1);
            assert forall|j: int| i <= j < args.len() implies kept_or_made_dylib(args, j, #[trigger] r[j - i]) by {
                if j >= i + 1 {
                    assert(r[j - i] == rest[j - (i + 1)]);
                }
            }
        }
    }
}

/// The rewrite keeps every argument of the command in its place and in its
/// order, but for the `bin` after `--crate-type`, which becomes `dylib`; the
/// linker option is only appended after them.
pub proof fn lemma_rewrite_keeps_arguments(args: Seq<Seq<char>>)
    ensures
        rewritten_from(args, 0).len() == args.len(),
        forall|j: int| 0 <= j < args.len() ==> kept_or_made_dylib(args, j, #[trigger] rewritten_from(args, 0)[j]),
{
    lemma_rewritten_from(args, 0);
    assert forall|j: int| 0 <= j < args.len() implies kept_or_made_dylib(args, j, #[trigger] rewritten_from(args, 0)[j]) by {
        assert(rewritten_from(args, 0)[j] == rewritten_from(args, 0)[j - 0]);
    }
}

/// The value of the last occurrence of the valued flag `flag` from position
/// `i` on, as the rewrite reads the arguments.
pub open spec fn captured_from(args: Seq<Seq<char>>, i: int, flag: Seq<char>) -> Option<Seq<char>>
    decreases args.len() - i,
{
    if i < 0 || i >= args.len() {
        None
    } else if is_bin_crate_type(args, i) {
        captured_from(args, i + 2, flag)
    } else if is_valued_flag(args, i) {
        let later = captured_from(args, i + 2, flag);
        if later is Some {
            later
        } else if args[i] == flag {
            Some(args[i + 1])
        } else {
            None
        }
    } else {
        captured_from(args, i + 1, flag)
    }
}

/// The later of two captured values.
pub open spec fn later_or(earlier: Option<Seq<char>>, later: Option<Seq<char>>) -> Option<
    Seq<char>,
> {
    if later is Some {
        later
    } else {
        earlier
    }
}

/// The linker option that points the compiler at `linker`.
pub open spec fn linker_option(linker: Seq<char>) -> Seq<Seq<char>> {
    seq!["-C"@, "linker="@ + linker]
}

/// The first line of a text, as `str::lines` yields it: up to the first
/// newline, less a carriage return just before it; none for an empty text.
pub open spec fn first_line_of(s: Seq<char>) -> Option<Seq<char>> {
    if s.len() == 0 {
        None
    } else if exists|k: int| 0 <= k < s.len() && s[k] == '\n' {
        let k = choose|k: int| 0 <= k < s.len() && s[k] == '\n' && forall|j: int| 0 <= j < k ==> s[j] != '\n';
        if k > 0 && s[k - 1] == '\r' {
            Some(s.subrange(0, k - 1))
        } else {
            Some(s.subrange(0, k))
        }
    } else {
        Some(s)
    }
}

/// A compiler command after the rewrite, with what was read from it.
#[derive(Debug)]
pub struct Rewrite {
    /// The new argument list.
    pub args: Vec<String>,
    /// The value of `--out-dir`, empty when there is none.
    pub out_dir: String,
    /// The value of `--target`.
    pub target: String,
}

/// Rewrites the commands that build the program so that they build a
/// dynamic library for one target, linked with that target's linker.
#[derive(Debug)]
pub struct LibExecutor {
    linkers: Vec<(String, String)>,
}

impl LibExecutor {
    /// The linkers, one per target identifier, that commands are linked with.
    pub closed spec fn linker_entries(&self) -> Seq<(Seq<char>, Seq<char>)> {
        pair_views(self.linkers@)
    }

    /// An executor that links each target with its entry in `linkers` (the
    /// first one, where a target is listed twice).
    pub fn new(linkers: Vec<(String, String)>) -> (r: Self)
        ensures
            r.linker_entries() == pair_views(linkers@),
    {
        LibExecutor { linkers }
    }

    /// The linker of target `t`, if one was given.
    pub fn linker_of(&self, t: &str) -> (r: Option<String>)
        ensures
            match r {
                Some(p) => lookup(self.linker_entries(), t@) == Some(p@),
                None => lookup(self.linker_entries(), t@) is None,
            },
    {
        let mut i: usize = 0;
        assert(self.linker_entries().skip(0) =~= self.linker_entries());
        while i < self.linkers.len()
            invariant
                i <= self.linkers@.len(),
                lookup(self.linker_entries(), t@) == lookup(self.linker_entries().skip(i as int), t@),
            decreases self.linkers@.len() - i,
        {
            let ghost rest = self.linker_entries().skip(i as int);
            assert(rest[0] == (self.linkers@[i as int].0@, self.linkers@[i as int].1@));
            if same_text(self.linkers[i].0.as_str(), t) {
                return Some(self.linkers[i].1.clone());
            }
            assert(rest.skip(1) =~= self.linker_entries().skip(i + 1));
            i = i + 1;
        }
        None
    }

    /// Whether a command is rewritten: only a plain build of a binary or of
    /// an example binary is; every other command runs as it is.
    pub fn intercepts(is_plain_build: bool, builds_binary: bool) -> (r: bool)
        ensures
            r == (is_plain_build && builds_binary),
    {
        is_plain_build && builds_binary
    }

    /// Rewrites the compiler arguments of a command that builds the program:
    /// `--crate-type bin` becomes `--crate-type dylib`, every other argument
    /// stays in its place, and the linker of the command's `--target` is
    /// appended as `-C linker=...`. Fails when the command names no target
    /// or one without a linker.
    pub fn rewrite(&self, args: &Vec<String>) -> (r: Result<Rewrite, BuildError>)
        ensures
            match captured_from(views(args@), 0, "--target"@) {
                None => r matches Err(e) && e.is_unknown_target(seq![]),
                Some(t) => match lookup(self.linker_entries(), t) {
                    None => r matches Err(e) && e.is_unknown_target(t),
                    Some(linker) => r matches Ok(w) && {
                        &&& views(w.args@) == rewritten_from(views(args@), 0) + linker_option(linker)
                        &&& w.target@ == t
                        &&& w.out_dir@ == match captured_from(views(args@), 0, "--out-dir"@) {
                            Some(d) => d,
                            None => seq![],
                        }
                    },
                },
            },
    {
        let ghost a = views(args@);
        proof {
            reveal_strlit("--out-dir");
            reveal_strlit("--target");
            assert("--out-dir"@[2] != "--target"@[2]);
        }
        let mut new_args: Vec<String> = Vec::new();
        let mut out_dir: Option<String> = None;
        let mut target: Option<String> = None;
        let n = args.len();
        let mut i: usize = 0;
        while i < n
            invariant
                n == args@.len(),
                a == views(args@),
                "--out-dir"@ != "--target"@,
                i <= n,
                rewritten_from(a, 0) == views(new_args@) + rewritten_from(a, i as int),
                captured_from(a, 0, "--out-dir"@) == later_or(
                    match out_dir { Some(d) => Some(d@), None => None },
                    captured_from(a, i as int, "--out-dir"@),
                ),
                captured_from(a, 0, "--target"@) == later_or(
                    match target { Some(d) => Some(d@), None => None },
                    captured_from(a, i as int, "--target"@),
                ),
            decreases n - i,
        {
            let ghost old_new = views(new_args@);
            let cur = args[i].as_str();
            let has_next = i + 1 < n;
            if has_next && same_text(cur, "--crate-type") && same_text(args[i + 1].as_str(), "bin") {
                assert(is_bin_crate_type(a, i as int));
                new_args.push(String::from_str("--crate-type"));
                new_args.push(String::from_str("dylib"));
                assert(views(new_args@) =~= old_new + seq!["--crate-type"@, "dylib"@]);
                i = i + 2;
            } else if has_next && (same_text(cur, "--out-dir") || same_text(cur, "--target")) {
                assert(!is_bin_crate_type(a, i as int));
                assert(is_valued_flag(a, i as int));
                if same_text(cur, "--out-dir") {
                    out_dir = Some(args[i + 1].clone());
                } else {
                    target = Some(args[i + 1].clone());
                }
                new_args.push(args[i].clone());
                new_args.push(args[i + 1].clone());
                assert(views(new_args@) =~= old_new + seq![a[i as int], a[i + 1]]);
                i = i + 2;
            } else {
                assert(!is_bin_crate_type(a, i as int));
                assert(!is_valued_flag(a, i as int));
                new_args.push(args[i].clone());
                assert(views(new_args@) =~= old_new + seq![a[i as int]]);
                i = i + 1;
            }
        }
        assert(rewritten_from(a, n as int) == Seq::<Seq<char>>::empty());
        assert(views(new_args@) =~= rewritten_from(a, 0));
        let target = match target {
            Some(t) => t,
            None => {
                return Err(BuildError::UnknownTarget(String::new()));
            },
        };
        let linker = match self.linker_of(target.as_str()) {
            Some(l) => l,
            None => {
                return Err(BuildError::UnknownTarget(target));
            },
        };
        let ghost before = views(new_args@);
        new_args.push(String::from_str("-C"));
        new_args.push(concat("linker=", linker.as_str()));
        assert(views(new_args@) =~= before + linker_option(linker@));
        let out_dir = match out_dir {
            Some(d) => d,
            None => String::new(),
        };
        Ok(Rewrite { args: new_args, out_dir, target })
    }

    /// The arguments that ask the compiler, given the rewritten arguments,
    /// for the file name of the library it builds.
    pub fn file_name_query(rewritten: &Vec<String>) -> (r: Vec<String>)
        ensures
            views(r@) == views(rewritten@) + seq!["--print"@, "file-names"@],
    {
        let mut r: Vec<String> = Vec::new();
        let mut i: usize = 0;
        while i < rewritten.len()
            invariant
                i <= rewritten@.len(),
                r@.len() == i,
                forall|j: int| 0 <= j < i ==> (#[trigger] r@[j])@ == rewritten@[j]@,
            decreases rewritten@.len() - i,
        {
            r.push(rewritten[i].clone());
            i = i + 1;
        }
        assert(views(r@) =~= views(rewritten@));
        let ghost before = views(r@);
        r.push(String::from_str("--print"));
        r.push(String::from_str("file-names"));
        assert(views(r@) =~= before + seq!["--print"@, "file-names"@]);
        r
    }

    /// Where the library lies, given the output directory of the rewritten
    /// command and what the compiler printed when asked for its file name:
    /// the first printed line, taken relative to the output directory.
    /// Fails when the compiler printed nothing.
    pub fn artifact_path(out_dir: &str, printed: &str) -> (r: Result<String, BuildError>)
        ensures
            match first_line_of(printed@) {
                Some(name) => r matches Ok(p) && p@ == joined(out_dir@, name),
                None => r matches Err(BuildError::MissingFileName),
            },
    {
        match first_line(printed) {
            Some(name) => Ok(join_path(out_dir, name.as_str())),
            None => Err(BuildError::MissingFileName),
        }
    }
}

/// The first line of a text, as `str::lines` yields it.
pub fn first_line(s: &str) -> (r: Option<String>)
    ensures
        match first_line_of(s@) {
            Some(l) => r matches Some(x) && x@ == l,
            None => r is None,
        },
{
    let n = s.unicode_len();
    if n == 0 {
        return None;
    }
    let mut k: usize = 0;
    while k < n
        invariant
            n == s@.len(),
            k <= n,
            forall|j: int| 0 <= j < k ==> s@[j] != '\n',
        decreases n - k,
    {
        if s.get_char(k) == '\n' {
            assert(forall|j: int| 0 <= j < k ==> s@[j] != '\n');
            let ghost c = choose|c: int| 0 <= c < s@.len() && s@[c] == '\n' && forall|j: int| 0 <= j < c ==> s@[j] != '\n';
            assert(c == k) by {
                if c < k {
                } else if c > k {
                }
            }
            if k > 0 && s.get_char(k - 1) == '\r' {
                return Some(String::from_str(s.substring_char(0, k - 1)));
            }
            return Some(String::from_str(s.substring_char(0, k)));
        }
        k = k + 1;
    }
    Some(String::from_str(s))
}

} // verus!
