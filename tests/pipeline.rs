use appdmg::{BuildError, DmgConfig, DmgContent, DmgWindow, DmgWindowSize, Outcome, Stage};

fn item(kind: &str, path: &str) -> DmgContent {
    DmgContent { x: 0, y: 0, type_: kind.to_string(), path: path.to_string(), name: None }
}

fn config(contents: Vec<DmgContent>) -> DmgConfig {
    DmgConfig {
        title: "Test".to_string(),
        icon: "icon.icns".to_string(),
        background: "background.png".to_string(),
        icon_size_bits: 96.0f64.to_bits(),
        window: DmgWindow { size: DmgWindowSize { width: 400, height: 300 } },
        contents,
    }
}

/// Runs the machine, failing the work of the stages that `fails` picks.
fn run(c: &DmgConfig, fails: &dyn Fn(Stage) -> bool) -> (Vec<Stage>, Outcome) {
    let mut stage = Stage::start();
    let mut trace = vec![stage];
    for _ in 0..100 {
        if let Some(o) = stage.outcome() {
            return (trace, o);
        }
        stage = stage.next(c, !fails(stage));
        trace.push(stage);
    }
    panic!("the build did not finish");
}

fn cleaned_up(trace: &[Stage]) -> bool {
    let s = trace.iter().position(|t| matches!(t, Stage::RemoveStaging(_)));
    let i = trace.iter().position(|t| matches!(t, Stage::RemoveImage(_)));
    matches!((s, i), (Some(a), Some(b)) if a < b)
}

#[test]
fn successful_build_of_two_files() {
    let c = config(vec![item("file", "/a/One"), item("file", "/a/Two")]);
    let (trace, outcome) = run(&c, &|_| false);
    assert_eq!(outcome, Outcome::Built);
    assert_eq!(
        trace,
        vec![
            Stage::PrepareStaging,
            Stage::StageItem(0),
            Stage::StageItem(1),
            Stage::CreateImage,
            Stage::Attach,
            Stage::WriteLayout,
            Stage::Decorate,
            Stage::Detach,
            Stage::Convert,
            Stage::PlaceOutput,
            Stage::RemoveStaging(Outcome::Built),
            Stage::RemoveImage(Outcome::Built),
            Stage::Finished(Outcome::Built),
        ]
    );
}

#[test]
fn empty_declaration_goes_straight_to_the_image() {
    let c = config(vec![]);
    assert_eq!(Stage::PrepareStaging.next(&c, true), Stage::CreateImage);
}

#[test]
fn copy_failure_aborts_without_output() {
    let c = config(vec![item("link", "/Applications"), item("file", "/a/App")]);
    let (trace, outcome) = run(&c, &|s| s == Stage::StageItem(1));
    assert_eq!(outcome, Outcome::Failed(BuildError::CopyFailed(1)));
    assert!(!trace.contains(&Stage::PlaceOutput));
    assert!(!trace.contains(&Stage::CreateImage));
    assert!(cleaned_up(&trace));
}

#[test]
fn link_failure_is_tolerated() {
    let c = config(vec![item("link", "/Applications"), item("file", "/a/App")]);
    let (trace, outcome) = run(&c, &|s| s == Stage::StageItem(0));
    assert_eq!(outcome, Outcome::Built);
    assert!(trace.contains(&Stage::PlaceOutput));
}

#[test]
fn unknown_kind_failure_is_tolerated() {
    let c = config(vec![item("folder", "/a/B")]);
    assert_eq!(Stage::StageItem(0).next(&c, false), Stage::CreateImage);
}

#[test]
fn decoration_failure_is_absorbed() {
    let c = config(vec![item("file", "/a/App")]);
    let (_, outcome) = run(&c, &|s| s == Stage::Decorate);
    assert_eq!(outcome, Outcome::Built);
}

#[test]
fn each_fatal_failure_is_reported_and_cleaned_up() {
    let c = config(vec![item("file", "/a/App")]);
    let cases = [
        (Stage::PrepareStaging, BuildError::StagingFailed),
        (Stage::StageItem(0), BuildError::CopyFailed(0)),
        (Stage::CreateImage, BuildError::CreateFailed),
        (Stage::Attach, BuildError::MountNotFound),
        (Stage::WriteLayout, BuildError::LayoutWriteFailed),
        (Stage::Detach, BuildError::DetachFailed),
        (Stage::Convert, BuildError::ConvertFailed),
        (Stage::PlaceOutput, BuildError::OutputFailed),
    ];
    for (failing, error) in cases {
        let (trace, outcome) = run(&c, &|s| s == failing);
        assert_eq!(outcome, Outcome::Failed(error));
        assert!(cleaned_up(&trace));
        let placed = trace.contains(&Stage::PlaceOutput);
        assert_eq!(placed, failing == Stage::PlaceOutput);
    }
}

#[test]
fn attached_volume_is_released_after_a_failure() {
    let c = config(vec![]);
    let (trace, _) = run(&c, &|s| s == Stage::WriteLayout);
    let o = Outcome::Failed(BuildError::LayoutWriteFailed);
    assert!(trace.contains(&Stage::ReleaseVolume(o)));
    let (trace, _) = run(&c, &|s| s == Stage::Convert);
    assert!(!trace.iter().any(|t| matches!(t, Stage::ReleaseVolume(_))));
}

#[test]
fn cleanup_failures_do_not_change_the_outcome() {
    let c = config(vec![]);
    let (_, outcome) = run(&c, &|s| matches!(s, Stage::RemoveStaging(_) | Stage::RemoveImage(_)));
    assert_eq!(outcome, Outcome::Built);
}
