use vstd::prelude::*;
use crate::error::BuildError;
use crate::profile::BuildProfile;
use crate::targets::views;
use crate::text::{concat, join_path, joined, owned};

verus! {

/// Whether `c` is white space that is trimmed from the device's answer.
pub open spec fn is_space(c: char) -> bool {
    c == ' ' || c == '\t' || c == '\n' || c == '\r' || c == '\x0b' || c == '\x0c'
}

/// Whether `c` is a decimal digit.
pub open spec fn is_digit(c: char) -> bool {
    '0' <= c && c <= '9'
}

/// The number that a string of decimal digits writes.
pub open spec fn digits_value(s: Seq<char>) -> nat
    decreases s.len(),
{
    if s.len() == 0 {
        0
    } else {
        digits_value(s.drop_last()) * 10 + (s.last() as nat - '0' as nat) as nat
    }
}

/// The number of leading white-space characters of `s`.
pub open spec fn leading_space(s: Seq<char>) -> nat
    decreases s.len(),
{
    if s.len() > 0 && is_space(s[0]) {
        1 + leading_space(s.skip(1))
    } else {
        0
    }
}

/// The number of trailing white-space characters of `s`.
pub open spec fn trailing_space(s: Seq<char>) -> nat
    decreases s.len(),
{
    if s.len() > 0 && is_space(s.last()) {
        1 + trailing_space(s.drop_last())
    } else {
        0
    }
}

/// `s` without white space at either end.
pub open spec fn trimmed(s: Seq<char>) -> Seq<char> {
    let t = s.subrange(0, s.len() - trailing_space(s));
    t.skip(leading_space(t) as int)
}

/// A trimmed text less the `+` it may start with.
pub open spec fn unsigned_part(t: Seq<char>) -> Seq<char> {
    if t.len() > 0 && t[0] == '+' {
        t.skip(1)
    } else {
        t
    }
}

/// Whether every character of `d` is a decimal digit.
pub open spec fn all_digits(d: Seq<char>) -> bool {
    forall|i: int| 0 <= i < d.len() ==> is_digit(#[trigger] d[i])
}

/// The unsigned number that a trimmed text writes: an optional `+`, then
/// one or more decimal digits.
pub open spec fn number_of(t: Seq<char>) -> Option<nat> {
    let d = unsigned_part(t);
    if d.len() > 0 && all_digits(d) {
        Some(digits_value(d))
    } else {
        None
    }
}

/// The process id that the device's answer `s` gives, if it is one: a
/// number that fits 32 bits, with white space around it.
pub open spec fn pid_of(s: Seq<char>) -> Option<u32> {
    match number_of(trimmed(s)) {
        Some(n) => if n <= u32::MAX {
            Some(n as u32)
        } else {
            None
        },
        None => None,
    }
}

proof fn lemma_leading_space(s: Seq<char>)
    ensures
        leading_space(s) <= s.len(),
        forall|i: int| 0 <= i < leading_space(s) ==> is_space(#[trigger] s[i]),
        leading_space(s) < s.len() ==> !is_space(s[leading_space(s) as int]),
    decreases s.len(),
{
    if s.len() > 0 && is_space(s[0]) {
        lemma_leading_space(s.skip(1));
        assert forall|i: int| 0 <= i < leading_space(s) implies is_space(#[trigger] s[i]) by {
            if i > 0 {
                assert(s[i] == s.skip(1)[i - 1]);
            }
        }
    }
}

proof fn lemma_trailing_space(s: Seq<char>)
    ensures
        trailing_space(s) <= s.len(),
        forall|i: int| s.len() - trailing_space(s) <= i < s.len() ==> is_space(#[trigger] s[i]),
        trailing_space(s) < s.len() ==> !is_space(s[s.len() - trailing_space(s) - 1]),
    decreases s.len(),
{
    if s.len() > 0 && is_space(s.last()) {
        lemma_trailing_space(s.drop_last());
        assert forall|i: int| s.len() - trailing_space(s) <= i < s.len() implies is_space(#[trigger] s[i]) by {
            if i < s.len() - 1 {
                assert(s[i] == s.drop_last()[i]);
            }
        }
    }
}

fn is_space_char(c: char) -> (r: bool)
    ensures
        r == is_space(c),
{
    c == ' ' || c == '\t' || c == '\n' || c == '\r' || c == '\x0b' || c == '\x0c'
}

/// The process id that the device's answer `s` gives. Fails when the answer
/// is not a number that fits 32 bits, as when no process matched.
pub fn parse_pid(s: &str) -> (r: Result<u32, BuildError>)
    ensures
        match pid_of(s@) {
            Some(p) => r == Ok::<u32, BuildError>(p),
            None => r matches Err(BuildError::ProcessNotFound),
        },
{
    let n = s.unicode_len();
    let mut end: usize = n;
    assert(s@.subrange(0, n as int) =~= s@);
    while end > 0 && is_space_char(s.get_char(end - 1))
        invariant
            n == s@.len(),
            end <= n,
            trailing_space(s@) == (n - end) + trailing_space(s@.subrange(0, end as int)),
        decreases end,
    {
        assert(s@.subrange(0, end as int).drop_last() =~= s@.subrange(0, end - 1));
        end = end - 1;
    }
    assert(trailing_space(s@.subrange(0, end as int)) == 0);
    let ghost t = s@.subrange(0, end as int);
    let mut start: usize = 0;
    assert(t.skip(0) =~= t);
    while start < end && is_space_char(s.get_char(start))
        invariant
            n == s@.len(),
            end <= n,
            start <= end,
            t == s@.subrange(0, end as int),
            leading_space(t) == start + leading_space(t.skip(start as int)),
        decreases end - start,
    {
        assert(t.skip(start as int).skip(1) =~= t.skip(start + 1));
        start = start + 1;
    }
    assert(leading_space(t.skip(start as int)) == 0);
    assert(trimmed(s@) =~= s@.subrange(start as int, end as int));
    let ghost tr = trimmed(s@);
    let mut i: usize = start;
    if i < end && s.get_char(i) == '+' {
        i = i + 1;
    }
    let ghost d = unsigned_part(tr);
    assert(d =~= s@.subrange(i as int, end as int));
    if i == end {
        assert(number_of(tr) is None);
        return Err(BuildError::ProcessNotFound);
    }
    let mut value: u32 = 0;
    let mut k: usize = i;
    while k < end
        invariant
            n == s@.len(),
            i <= k <= end <= n,
            d == s@.subrange(i as int, end as int),
            d == unsigned_part(tr),
            tr == trimmed(s@),
            forall|j: int| i <= j < k ==> is_digit(#[trigger] s@[j]),
            value as nat == digits_value(s@.subrange(i as int, k as int)),
        decreases end - k,
    {
        let c = s.get_char(k);
        if !('0' <= c && c <= '9') {
            assert(!is_digit(d[k - i]));
            assert(number_of(tr) is None);
            return Err(BuildError::ProcessNotFound);
        }
        let digit = (c as u32) - ('0' as u32);
        assert(s@.subrange(i as int, k + 1).drop_last() =~= s@.subrange(i as int, k as int));
        if value > 429496729 || (value == 429496729 && digit > 5) {
            proof {
                let v = value as nat;
                let g = digit as nat;
                assert(digits_value(s@.subrange(i as int, k + 1)) == v * 10 + g);
                assert(v * 10 + g > u32::MAX) by (nonlinear_arith)
                    requires
                        v > 429496729 || (v == 429496729 && g > 5),
                ;
                if all_digits(d) {
                    lemma_digits_grow(d, (k - i + 1) as nat);
                    assert(d.subrange(0, k - i + 1) =~= s@.subrange(i as int, k + 1));
                    assert(number_of(tr) == Some(digits_value(d)));
                } else {
                    assert(number_of(tr) is None);
                }
            }
            return Err(BuildError::ProcessNotFound);
        }
        value = value * 10 + digit;
        k = k + 1;
    }
    assert forall|j: int| 0 <= j < d.len() implies is_digit(#[trigger] d[j]) by {
        assert(d[j] == s@[i + j]);
    }
    assert(d =~= s@.subrange(i as int, k as int));
    assert(number_of(tr) == Some(digits_value(d)));
    Ok(value)
}

proof fn lemma_digits_grow(d: Seq<char>, k: nat)
    requires
        k <= d.len(),
        forall|i: int| 0 <= i < d.len() ==> is_digit(#[trigger] d[i]),
    ensures
        digits_value(d.subrange(0, k as int)) <= digits_value(d),
    decreases d.len() - k,
{
    if k < d.len() {
        lemma_digits_grow(d, k + 1);
        assert(d.subrange(0, (k + 1) as int).drop_last() =~= d.subrange(0, k as int));
    } else {
        assert(d.subrange(0, k as int) =~= d);
    }
}

/// The decimal digits of `n`.
pub open spec fn decimal_of(n: nat) -> Seq<char>
    decreases n,
{
    if n < 10 {
        seq![(n + '0' as nat) as char]
    } else {
        decimal_of(n / 10).push(((n % 10) + '0' as nat) as char)
    }
}

/// The decimal digits of `n`.
pub fn decimal(n: u32) -> (r: String)
    ensures
        r@ == decimal_of(n as nat),
    decreases n,
{
    let digits = ["0", "1", "2", "3", "4", "5", "6", "7", "8", "9"];
    proof {
        reveal_strlit("0");
        reveal_strlit("1");
        reveal_strlit("2");
        reveal_strlit("3");
        reveal_strlit("4");
        reveal_strlit("5");
        reveal_strlit("6");
        reveal_strlit("7");
        reveal_strlit("8");
        reveal_strlit("9");
    }
    let last = digits[(n % 10) as usize];
    assert(last@ == seq![((n % 10) as nat + '0' as nat) as char]);
    if n < 10 {
        owned(last)
    } else {
        let r = concat(decimal(n / 10).as_str(), last);
        assert(r@ =~= decimal_of(n as nat));
        r
    }
}

/// The component that starts the application `app_id`.
pub open spec fn activity_of(app_id: Seq<char>) -> Seq<char> {
    app_id + "/.MainActivity"@
}

/// The arguments of the device bridge that install the package, replacing
/// any copy already there.
pub open spec fn install_args_of(manifest_dir: Seq<char>, profile: BuildProfile) -> Seq<Seq<char>> {
    seq!["-d"@, "install"@, "-r"@, joined(joined(manifest_dir, "target/android-project/app/build/outputs/apk/"@), profile.package())]
}

/// The arguments of the device bridge that stop the running application.
pub open spec fn force_stop_args_of(app_id: Seq<char>) -> Seq<Seq<char>> {
    seq!["shell"@, "am"@, "force-stop"@, app_id]
}

/// The arguments of the device bridge that start the main activity and
/// wait for it to launch.
pub open spec fn start_args_of(app_id: Seq<char>) -> Seq<Seq<char>> {
    seq!["shell"@, "am"@, "start"@, "-W"@, "-n"@, activity_of(app_id)]
}

/// The arguments of the device bridge that ask for the process id.
pub open spec fn pidof_args_of(app_id: Seq<char>) -> Seq<Seq<char>> {
    seq!["shell"@, "pidof"@, app_id]
}

/// The arguments of the device bridge that stream the process's log.
pub open spec fn logcat_args_of(pid: u32) -> Seq<Seq<char>> {
    seq!["logcat"@, "-v"@, "color"@, "--pid"@, decimal_of(pid as nat)]
}

/// The arguments of the device bridge that install the package.
pub fn install_args(manifest_dir: &str, profile: BuildProfile) -> (r: Vec<String>)
    ensures
        views(r@) == install_args_of(manifest_dir@, profile),
{
    let outputs = join_path(manifest_dir, "target/android-project/app/build/outputs/apk/");
    let r = vec![owned("-d"), owned("install"), owned("-r"), join_path(outputs.as_str(), profile.output_package())];
    assert(views(r@) =~= install_args_of(manifest_dir@, profile));
    r
}

/// The arguments of the device bridge that stop the running application.
pub fn force_stop_args(app_id: &str) -> (r: Vec<String>)
    ensures
        views(r@) == force_stop_args_of(app_id@),
{
    let r = vec![owned("shell"), owned("am"), owned("force-stop"), owned(app_id)];
    assert(views(r@) =~= force_stop_args_of(app_id@));
    r
}

/// The arguments of the device bridge that start the main activity.
pub fn start_args(app_id: &str) -> (r: Vec<String>)
    ensures
        views(r@) == start_args_of(app_id@),
{
    let r = vec![owned("shell"), owned("am"), owned("start"), owned("-W"), owned("-n"), concat(app_id, "/.MainActivity")];
    assert(views(r@) =~= start_args_of(app_id@));
    r
}

/// The arguments of the device bridge that ask for the process id.
pub fn pidof_args(app_id: &str) -> (r: Vec<String>)
    ensures
        views(r@) == pidof_args_of(app_id@),
{
    let r = vec![owned("shell"), owned("pidof"), owned(app_id)];
    assert(views(r@) =~= pidof_args_of(app_id@));
    r
}

/// The arguments of the device bridge that stream the process's log.
pub fn logcat_args(pid: u32) -> (r: Vec<String>)
    ensures
        views(r@) == logcat_args_of(pid),
{
    let r = vec![owned("logcat"), owned("-v"), owned("color"), owned("--pid"), decimal(pid)];
    assert(views(r@) =~= logcat_args_of(pid));
    r
}

} // verus!
