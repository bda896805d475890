use vstd::prelude::*;

use crate::config::{kind_of, DmgConfig, ItemKind};

verus! {

/// A failure that aborts the build, with the stage it came from.
#[derive(PartialEq, Eq, Structural, Clone, Copy, Debug)]
pub enum BuildError {
    /// The staging directory could not be made fresh.
    StagingFailed,
    /// Copying the item at this index into the staging area failed.
    CopyFailed(usize),
    /// The writable image could not be created.
    CreateFailed,
    /// Attaching gave no mount point.
    MountNotFound,
    /// The layout metadata could not be written.
    LayoutWriteFailed,
    /// The volume could not be detached, so it cannot be converted.
    DetachFailed,
    /// Compressing the writable image failed.
    ConvertFailed,
    /// The converted image could not be put at the output path.
    OutputFailed,
}

/// How a build ended.
#[derive(PartialEq, Eq, Structural, Clone, Copy, Debug)]
pub enum Outcome {
    Built,
    Failed(BuildError),
}

/// A stage of the build. Each names the one piece of outside work to do
/// next; the driver does it and reports whether it succeeded.
#[derive(PartialEq, Eq, Structural, Clone, Copy, Debug)]
pub enum Stage {
    /// Remove any earlier staging directory and create it empty.
    PrepareStaging,
    /// Copy or link the item at this index into the staging area.
    StageItem(usize),
    /// Remove any earlier writable image and create it from the staging area.
    CreateImage,
    /// Attach the image read-write and find its mount point.
    Attach,
    /// Copy the background, resolve its alias and write the layout metadata.
    WriteLayout,
    /// Hide the support folders, set the volume icon and sync; every
    /// failure here is absorbed.
    Decorate,
    /// Detach the volume.
    Detach,
    /// Compress the writable image into a scratch file in the staging area.
    Convert,
    /// Replace whatever is at the output path with the converted image.
    PlaceOutput,
    /// Force-detach the volume after a failure while it was attached.
    ReleaseVolume(Outcome),
    /// Remove the staging directory.
    RemoveStaging(Outcome),
    /// Remove the writable image.
    RemoveImage(Outcome),
    /// Nothing is left to do.
    Finished(Outcome),
}

pub open spec fn item_kind(config: DmgConfig, i: int) -> ItemKind {
    kind_of(config.contents@[i].type_@)
}

/// The stage after `s`, given whether the work of `s` succeeded.
pub open spec fn next_stage(config: DmgConfig, s: Stage, ok: bool) -> Stage {
    let n = config.contents@.len();
    match s {
        Stage::PrepareStaging => if !ok {
            Stage::RemoveStaging(Outcome::Failed(BuildError::StagingFailed))
        } else if n > 0 {
            Stage::StageItem(0)
        } else {
            Stage::CreateImage
        },
        Stage::StageItem(i) => if i < n && !ok && item_kind(config, i as int) == ItemKind::File {
            Stage::RemoveStaging(Outcome::Failed(BuildError::CopyFailed(i)))
        } else if i + 1 < n {
            Stage::StageItem((i + 1) as usize)
        } else {
            Stage::CreateImage
        },
        Stage::CreateImage => if ok {
            Stage::Attach
        } else {
            Stage::RemoveStaging(Outcome::Failed(BuildError::CreateFailed))
        },
        Stage::Attach => if ok {
            Stage::WriteLayout
        } else {
            Stage::RemoveStaging(Outcome::Failed(BuildError::MountNotFound))
        },
        Stage::WriteLayout => if ok {
            Stage::Decorate
        } else {
            Stage::ReleaseVolume(Outcome::Failed(BuildError::LayoutWriteFailed))
        },
        Stage::Decorate => Stage::Detach,
        Stage::Detach => if ok {
            Stage::Convert
        } else {
            Stage::ReleaseVolume(Outcome::Failed(BuildError::DetachFailed))
        },
        Stage::Convert => if ok {
            Stage::PlaceOutput
        } else {
            Stage::RemoveStaging(Outcome::Failed(BuildError::ConvertFailed))
        },
        Stage::PlaceOutput => if ok {
            Stage::RemoveStaging(Outcome::Built)
        } else {
            Stage::RemoveStaging(Outcome::Failed(BuildError::OutputFailed))
        },
        Stage::ReleaseVolume(o) => Stage::RemoveStaging(o),
        Stage::RemoveStaging(o) => Stage::RemoveImage(o),
        Stage::RemoveImage(o) => Stage::Finished(o),
        Stage::Finished(o) => Stage::Finished(o),
    }
}

impl Stage {
    /// The stage a build starts in.
    pub fn start() -> (r: Stage)
        ensures
            r == Stage::PrepareStaging,
    {
        Stage::PrepareStaging
    }

    /// The stage after this one, given whether its work succeeded.
    pub fn next(self, config: &DmgConfig, succeeded: bool) -> (r: Stage)
        ensures
            r == next_stage(*config, self, succeeded),
    {
        let n = config.contents.len();
        match self {
            Stage::PrepareStaging => if !succeeded {
                Stage::RemoveStaging(Outcome::Failed(BuildError::StagingFailed))
            } else if n > 0 {
                Stage::StageItem(0)
            } else {
                Stage::CreateImage
            },
            Stage::StageItem(i) => {
                if i < n && !succeeded && config.contents[i].kind() == ItemKind::File {
                    Stage::RemoveStaging(Outcome::Failed(BuildError::CopyFailed(i)))
                } else if i < n && i + 1 < n {
                    Stage::StageItem(i + 1)
                } else {
                    Stage::CreateImage
                }
            },
            Stage::CreateImage => if succeeded {
                Stage::Attach
            } else {
                Stage::RemoveStaging(Outcome::Failed(BuildError::CreateFailed))
            },
            Stage::Attach => if succeeded {
                Stage::WriteLayout
            } else {
                Stage::RemoveStaging(Outcome::Failed(BuildError::MountNotFound))
            },
            Stage::WriteLayout => if succeeded {
                Stage::Decorate
            } else {
                Stage::ReleaseVolume(Outcome::Failed(BuildError::LayoutWriteFailed))
            },
            Stage::Decorate => Stage::Detach,
            Stage::Detach => if succeeded {
                Stage::Convert
            } else {
                Stage::ReleaseVolume(Outcome::Failed(BuildError::DetachFailed))
            },
            Stage::Convert => if succeeded {
                Stage::PlaceOutput
            } else {
                Stage::RemoveStaging(Outcome::Failed(BuildError::ConvertFailed))
            },
            Stage::PlaceOutput => if succeeded {
                Stage::RemoveStaging(Outcome::Built)
            } else {
                Stage::RemoveStaging(Outcome::Failed(BuildError::OutputFailed))
            },
            Stage::ReleaseVolume(o) => Stage::RemoveStaging(o),
            Stage::RemoveStaging(o) => Stage::RemoveImage(o),
            Stage::RemoveImage(o) => Stage::Finished(o),
            Stage::Finished(o) => Stage::Finished(o),
        }
    }

    /// How the build ended, once it has.
    pub fn outcome(self) -> (r: Option<Outcome>)
        ensures
            r == (match self {
                Stage::Finished(o) => Some(o),
                _ => None,
            }),
    {
        match self {
            Stage::Finished(o) => Some(o),
            _ => None,
        }
    }
}

/// `stages` is what a build goes through when the work of each stage
/// succeeds or fails as `events` says.
pub open spec fn is_run(config: DmgConfig, stages: Seq<Stage>, events: Seq<bool>) -> bool {
    &&& config.contents@.len() <= usize::MAX
    &&& stages.len() == events.len() + 1
    &&& stages[0] == Stage::PrepareStaging
    &&& forall|k: int|
        0 <= k < events.len() ==> #[trigger] stages[k + 1] == next_stage(config, stages[k], events[k])
}

/// Steps left before a build in stage `s` is finished, whatever happens.
pub open spec fn steps_left(config: DmgConfig, s: Stage) -> nat {
    let n = config.contents@.len();
    match s {
        Stage::PrepareStaging => 11 + n,
        Stage::StageItem(i) => if i < n {
            (10 + n - i) as nat
        } else {
            10
        },
        Stage::CreateImage => 9,
        Stage::Attach => 8,
        Stage::WriteLayout => 7,
        Stage::Decorate => 6,
        Stage::Detach => 5,
        Stage::Convert => 4,
        Stage::PlaceOutput => 3,
        Stage::ReleaseVolume(_) => 3,
        Stage::RemoveStaging(_) => 2,
        Stage::RemoveImage(_) => 1,
        Stage::Finished(_) => 0,
    }
}

/// Every stage but the last brings the build closer to its end, whether
/// its work succeeded or not; a finished build stays finished.
pub proof fn lemma_progress(config: DmgConfig, s: Stage, ok: bool)
    requires
        config.contents@.len() <= usize::MAX,
    ensures
        s is Finished ==> next_stage(config, s, ok) == s,
        !(s is Finished) ==> steps_left(config, next_stage(config, s, ok)) < steps_left(config, s),
{
}

/// Every build finishes: after as many steps as `steps_left` gives for the
/// first stage, whatever succeeded or failed on the way.
pub proof fn lemma_run_finishes(config: DmgConfig, stages: Seq<Stage>, events: Seq<bool>)
    requires
        is_run(config, stages, events),
        events.len() >= steps_left(config, Stage::PrepareStaging),
    ensures
        stages.last() is Finished,
{
    assert forall|k: int| 0 <= k < stages.len() implies (#[trigger] stages[k]) is Finished
        || steps_left(config, stages[k]) + k <= steps_left(config, Stage::PrepareStaging) by {
        lemma_run_prefix_bound(config, stages, events, k);
    }
    assert(stages.last() == stages[stages.len() - 1]);
}

proof fn lemma_run_prefix_bound(config: DmgConfig, stages: Seq<Stage>, events: Seq<bool>, k: int)
    requires
        is_run(config, stages, events),
        0 <= k < stages.len(),
    ensures
        stages[k] is Finished || steps_left(config, stages[k]) + k <= steps_left(
            config,
            Stage::PrepareStaging,
        ),
    decreases k,
{
    if k > 0 {
        lemma_run_prefix_bound(config, stages, events, k - 1);
        assert(stages[(k - 1) + 1] == next_stage(config, stages[k - 1], events[k - 1]));
        lemma_progress(config, stages[k - 1], events[k - 1]);
    }
}

/// Whatever the outcome, a build finishes only after removing the staging
/// directory and then the writable image.
pub proof fn lemma_cleanup_before_finish(
    config: DmgConfig,
    stages: Seq<Stage>,
    events: Seq<bool>,
    k: int,
)
    requires
        is_run(config, stages, events),
        0 <= k < stages.len(),
        stages[k] is Finished,
    ensures
        exists|i: int, j: int|
            0 <= i < j < k && (#[trigger] stages[i]) is RemoveStaging
                && (#[trigger] stages[j]) is RemoveImage,
    decreases k,
{
    assert(k > 0);
    assert(stages[(k - 1) + 1] == next_stage(config, stages[k - 1], events[k - 1]));
    if stages[k - 1] is Finished {
        lemma_cleanup_before_finish(config, stages, events, k - 1);
        let (i, j) = choose|i: int, j: int|
            0 <= i < j < k - 1 && (#[trigger] stages[i]) is RemoveStaging
                && (#[trigger] stages[j]) is RemoveImage;
        assert(0 <= i < j < k && stages[i] is RemoveStaging && stages[j] is RemoveImage);
    } else {
        assert(stages[k - 1] is RemoveImage);
        assert(k - 1 > 0);
        assert(stages[(k - 2) + 1] == next_stage(config, stages[k - 2], events[k - 2]));
        assert(stages[k - 2] is RemoveStaging);
    }
}

/// The output path is touched only by the stage that places the converted
/// image, and that stage comes only right after a conversion succeeded.
pub proof fn lemma_output_after_conversion(
    config: DmgConfig,
    stages: Seq<Stage>,
    events: Seq<bool>,
    k: int,
)
    requires
        is_run(config, stages, events),
        0 <= k < stages.len(),
        stages[k] is PlaceOutput,
    ensures
        k >= 1,
        stages[k - 1] is Convert,
        events[k - 1],
{
    assert(k > 0);
    assert(stages[(k - 1) + 1] == next_stage(config, stages[k - 1], events[k - 1]));
}

/// A failed copy of a file item aborts the build: no later stage places an
/// output, and the build ends with that copy failure.
pub proof fn lemma_copy_failure_aborts(
    config: DmgConfig,
    stages: Seq<Stage>,
    events: Seq<bool>,
    k: int,
    i: usize,
)
    requires
        is_run(config, stages, events),
        0 <= k < events.len(),
        stages[k] == Stage::StageItem(i),
        i < config.contents@.len(),
        item_kind(config, i as int) == ItemKind::File,
        !events[k],
    ensures
        forall|m: int| k < m < stages.len() ==> !((#[trigger] stages[m]) is PlaceOutput),
        forall|m: int|
            k < m < stages.len() && (#[trigger] stages[m]) is Finished ==> stages[m]
                == Stage::Finished(Outcome::Failed(BuildError::CopyFailed(i))),
{
    let o = Outcome::Failed(BuildError::CopyFailed(i));
    assert forall|m: int| k < m < stages.len() implies (#[trigger] stages[m]) == Stage::RemoveStaging(o)
        || stages[m] == Stage::RemoveImage(o) || stages[m] == Stage::Finished(o) by {
        lemma_aborted_stages(config, stages, events, k, i, m);
    }
}

proof fn lemma_aborted_stages(
    config: DmgConfig,
    stages: Seq<Stage>,
    events: Seq<bool>,
    k: int,
    i: usize,
    m: int,
)
    requires
        is_run(config, stages, events),
        0 <= k < events.len(),
        stages[k] == Stage::StageItem(i),
        i < config.contents@.len(),
        item_kind(config, i as int) == ItemKind::File,
        !events[k],
        k < m < stages.len(),
    ensures
        ({
            let o = Outcome::Failed(BuildError::CopyFailed(i));
            stages[m] == Stage::RemoveStaging(o) || stages[m] == Stage::RemoveImage(o)
                || stages[m] == Stage::Finished(o)
        }),
    decreases m - k,
{
    assert(stages[(m - 1) + 1] == next_stage(config, stages[m - 1], events[m - 1]));
    if m > k + 1 {
        lemma_aborted_stages(config, stages, events, k, i, m - 1);
    }
}

} // verus!
