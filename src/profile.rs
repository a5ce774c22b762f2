use vstd::prelude::*;

verus! {

/// Whether a build is made for debugging or for release.
#[derive(Clone, Copy, Debug, PartialEq, Eq, Structural)]
pub enum BuildProfile {
    Debug,
    Release,
}

/// The stages that packaging goes through, in order.
#[derive(Clone, Copy, Debug, PartialEq, Eq, Structural)]
pub enum PackagingStage {
    /// The application project is copied from its template and filled in.
    Scaffolding,
    /// The libraries are copied into the project.
    PlacingArtifacts,
    /// The package assembler builds the package.
    Assembling,
    /// The release package is aligned and signed.
    Signing,
    /// Nothing is left to do.
    Done,
}

impl BuildProfile {
    /// The directory name of the profile's build outputs.
    pub open spec fn name(self) -> Seq<char> {
        match self {
            BuildProfile::Debug => "debug"@,
            BuildProfile::Release => "release"@,
        }
    }

    /// The task of the package assembler that builds this profile's package.
    pub open spec fn task(self) -> Seq<char> {
        match self {
            BuildProfile::Debug => "assembleDebug"@,
            BuildProfile::Release => "assembleRelease"@,
        }
    }

    /// Where the package lies below the project's package output directory.
    pub open spec fn package(self) -> Seq<char> {
        match self {
            BuildProfile::Debug => "debug/app-debug.apk"@,
            BuildProfile::Release => "release/app-release.apk"@,
        }
    }

    /// The directory name of the profile's build outputs.
    pub fn to_string(&self) -> (r: String)
        ensures
            r@ == self.name(),
    {
        match self {
            BuildProfile::Debug => String::from_str("debug"),
            BuildProfile::Release => String::from_str("release"),
        }
    }

    /// The task of the package assembler that builds this profile's package.
    pub fn gradle_task(&self) -> (r: &'static str)
        ensures
            r@ == self.task(),
    {
        match self {
            BuildProfile::Debug => "assembleDebug",
            BuildProfile::Release => "assembleRelease",
        }
    }

    /// Where the package lies below the project's package output directory.
    pub fn output_package(&self) -> (r: &'static str)
        ensures
            r@ == self.package(),
    {
        match self {
            BuildProfile::Debug => "debug/app-debug.apk",
            BuildProfile::Release => "release/app-release.apk",
        }
    }
}

/// The stage that follows `s` when packaging for `profile`: signing comes
/// after assembling for a release build only.
pub open spec fn spec_next_stage(s: PackagingStage, profile: BuildProfile) -> PackagingStage {
    match s {
        PackagingStage::Scaffolding => PackagingStage::PlacingArtifacts,
        PackagingStage::PlacingArtifacts => PackagingStage::Assembling,
        PackagingStage::Assembling => if profile == BuildProfile::Release {
            PackagingStage::Signing
        } else {
            PackagingStage::Done
        },
        PackagingStage::Signing => PackagingStage::Done,
        PackagingStage::Done => PackagingStage::Done,
    }
}

/// The stage that follows `s` when packaging for `profile`.
pub fn next_stage(s: PackagingStage, profile: BuildProfile) -> (r: PackagingStage)
    ensures
        r == spec_next_stage(s, profile),
{
    match s {
        PackagingStage::Scaffolding => PackagingStage::PlacingArtifacts,
        PackagingStage::PlacingArtifacts => PackagingStage::Assembling,
        PackagingStage::Assembling => if profile == BuildProfile::Release {
            PackagingStage::Signing
        } else {
            PackagingStage::Done
        },
        PackagingStage::Signing => PackagingStage::Done,
        PackagingStage::Done => PackagingStage::Done,
    }
}

/// The stages that packaging for `profile` runs, from scaffolding to the
/// last one before `Done`.
pub open spec fn stage_plan(profile: BuildProfile) -> Seq<PackagingStage> {
    if profile == BuildProfile::Release {
        seq![
            PackagingStage::Scaffolding,
            PackagingStage::PlacingArtifacts,
            PackagingStage::Assembling,
            PackagingStage::Signing,
        ]
    } else {
        seq![PackagingStage::Scaffolding, PackagingStage::PlacingArtifacts, PackagingStage::Assembling]
    }
}

/// How many times `s` occurs in `stages`.
pub open spec fn occurrences(stages: Seq<PackagingStage>, s: PackagingStage) -> nat
    decreases stages.len(),
{
    if stages.len() == 0 {
        0
    } else {
        (if stages[0] == s { 1nat } else { 0nat }) + occurrences(stages.skip(1), s)
    }
}

/// Lists the stages that packaging for `profile` runs, by following
/// `next_stage` from scaffolding until `Done`.
pub fn packaging_stages(profile: BuildProfile) -> (r: Vec<PackagingStage>)
    ensures
        r@ == stage_plan(profile),
{
    let mut r: Vec<PackagingStage> = Vec::new();
    let mut s = PackagingStage::Scaffolding;
    let mut steps: usize = 0;
    while s != PackagingStage::Done && steps < 4
        invariant
            steps <= stage_plan(profile).len(),
            forall|j: int| 0 <= j < stage_plan(profile).len() ==> stage_plan(profile)[j] != PackagingStage::Done,
            r@.len() == steps,
            r@ == stage_plan(profile).subrange(0, steps as int),
            steps < stage_plan(profile).len() ==> s == stage_plan(profile)[steps as int],
            steps >= stage_plan(profile).len() ==> s == PackagingStage::Done,
        decreases 4 - steps,
    {
        r.push(s);
        s = next_stage(s, profile);
        steps = steps + 1;
        assert(r@ =~= stage_plan(profile).subrange(0, steps as int));
    }
    assert(r@ =~= stage_plan(profile));
    r
}

/// A release build signs its package exactly once, and a debug build never
/// does.
pub proof fn lemma_signing_once_for_release(profile: BuildProfile)
    ensures
        profile == BuildProfile::Release ==> occurrences(stage_plan(profile), PackagingStage::Signing) == 1,
        profile == BuildProfile::Debug ==> occurrences(stage_plan(profile), PackagingStage::Signing) == 0,
{
    let p = stage_plan(profile);
    reveal_with_fuel(occurrences, 5);
    if profile == BuildProfile::Release {
        assert(p.skip(1) =~= seq![PackagingStage::PlacingArtifacts, PackagingStage::Assembling, PackagingStage::Signing]);
        assert(p.skip(1).skip(1) =~= seq![PackagingStage::Assembling, PackagingStage::Signing]);
        assert(p.skip(1).skip(1).skip(1) =~= seq![PackagingStage::Signing]);
        assert(p.skip(1).skip(1).skip(1).skip(1) =~= Seq::<PackagingStage>::empty());
    } else {
        assert(p.skip(1) =~= seq![PackagingStage::PlacingArtifacts, PackagingStage::Assembling]);
        assert(p.skip(1).skip(1) =~= seq![PackagingStage::Assembling]);
        assert(p.skip(1).skip(1).skip(1) =~= Seq::<PackagingStage>::empty());
    }
}

} // verus!
