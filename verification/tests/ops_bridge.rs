use runjs::context::ExecutionContext;
use runjs::errors::IoKind;
use runjs::errors::RunError;
use runjs::ops::delay_request;
use runjs::ops::fetch_request;
use runjs::ops::read_file_request;
use runjs::ops::remove_file_request;
use runjs::ops::write_file_request;
use runjs::path::FsPath;
use runjs::sandbox::PathProbe;
use runjs::sandbox::SandboxConfig;

fn active_context() -> ExecutionContext {
    ExecutionContext::with_sandbox(SandboxConfig::new(FsPath::parse("/sandbox")))
}

#[test]
fn every_op_refuses_without_active_context() {
    let ctx = ExecutionContext::inactive();
    let candidate = FsPath::parse("data.txt");
    let probe = PathProbe::Exists(Ok(FsPath::parse("/sandbox/data.txt")));

    assert!(matches!(
        read_file_request(&ctx, &candidate, &probe),
        Err(RunError::SandboxNotInitialized)
    ));
    assert!(matches!(
        write_file_request(&ctx, &candidate, &probe),
        Err(RunError::SandboxNotInitialized)
    ));
    assert!(matches!(
        remove_file_request(&ctx, &candidate, &probe),
        Err(RunError::SandboxNotInitialized)
    ));
    assert!(matches!(
        fetch_request(&ctx, "https://example.com/"),
        Err(RunError::SandboxNotInitialized)
    ));
    assert!(matches!(delay_request(&ctx, 100), Err(RunError::SandboxNotInitialized)));
}

#[test]
fn read_inside_sandbox_is_allowed() {
    let ctx = active_context();
    let candidate = FsPath::parse("data.txt");
    let probe = PathProbe::Exists(Ok(FsPath::parse("/sandbox/data.txt")));
    let target = read_file_request(&ctx, &candidate, &probe).expect("inside");
    assert_eq!(target.render(), "/sandbox/data.txt");
}

#[test]
fn read_outside_sandbox_is_rejected() {
    // A script asking for `../secret.txt` under root `/sandbox`: the
    // existing target canonicalizes to `/secret.txt`, outside the root.
    let ctx = active_context();
    let candidate = FsPath::parse("../secret.txt");
    let probe = PathProbe::Exists(Ok(FsPath::parse("/secret.txt")));
    let err = read_file_request(&ctx, &candidate, &probe).expect_err("escapes");
    assert!(matches!(err, RunError::PathEscapesSandbox));
}

#[test]
fn write_new_file_plans_parent_creation() {
    let ctx = active_context();
    let candidate = FsPath::parse("notes/data.txt");
    let probe = PathProbe::Missing(Ok(FsPath::parse("/sandbox")));
    let plan = write_file_request(&ctx, &candidate, &probe).expect("creatable");
    assert_eq!(plan.target.render(), "/sandbox/notes/data.txt");
    assert_eq!(plan.create_parent.expect("has a parent").render(), "/sandbox/notes");
}

#[test]
fn write_with_parent_outside_root_is_rejected() {
    // Even when the nearest existing ancestor sits inside the root, a
    // target whose own parent directory lies outside is refused.
    let ctx = active_context();
    let candidate = FsPath::parse("/elsewhere/new.txt");
    let probe = PathProbe::Missing(Ok(FsPath::parse("/sandbox")));
    let err = write_file_request(&ctx, &candidate, &probe).expect_err("parent escapes");
    assert!(matches!(err, RunError::PathEscapesSandbox));
}

#[test]
fn write_outside_sandbox_is_rejected() {
    // `writeFile('/etc/test.txt', ...)` under root `/sandbox`.
    let ctx = active_context();
    let candidate = FsPath::parse("/etc/test.txt");
    let probe = PathProbe::Missing(Ok(FsPath::parse("/etc")));
    let err = write_file_request(&ctx, &candidate, &probe).expect_err("escapes");
    assert!(matches!(err, RunError::PathEscapesSandbox));
}

#[test]
fn remove_validates_like_every_other_op() {
    let ctx = active_context();
    let candidate = FsPath::parse("../secret.txt");
    let probe = PathProbe::Exists(Ok(FsPath::parse("/secret.txt")));
    let err = remove_file_request(&ctx, &candidate, &probe).expect_err("escapes");
    assert!(matches!(err, RunError::PathEscapesSandbox));
}

#[test]
fn remove_missing_file_is_not_a_sandbox_error() {
    // Removing a file that does not exist: the request itself succeeds, so
    // the only failure the operation can report is the filesystem's own
    // "not found" — never a sandbox error.
    let ctx = active_context();
    let candidate = FsPath::parse("gone.txt");
    let probe = PathProbe::Missing(Ok(FsPath::parse("/sandbox")));
    let target = remove_file_request(&ctx, &candidate, &probe).expect("no sandbox error");
    assert_eq!(target.render(), "/sandbox/gone.txt");
}

#[test]
fn fetch_and_delay_pass_through_under_active_context() {
    let ctx = active_context();
    assert_eq!(
        fetch_request(&ctx, "https://example.com/get").expect("active"),
        "https://example.com/get"
    );
    assert_eq!(delay_request(&ctx, 250).expect("active"), 250);
}

#[test]
fn write_then_read_then_remove_agree_on_target() {
    // The decision-level walk of one script run under root `/sandbox`:
    // write `data.txt`, read it back, remove it.  All three requests
    // address one and the same location.
    let ctx = active_context();
    let candidate = FsPath::parse("data.txt");

    let before = PathProbe::Missing(Ok(FsPath::parse("/sandbox")));
    let plan = write_file_request(&ctx, &candidate, &before).expect("creatable");
    assert_eq!(plan.target.render(), "/sandbox/data.txt");

    let after = PathProbe::Exists(Ok(FsPath::parse("/sandbox/data.txt")));
    let read = read_file_request(&ctx, &candidate, &after).expect("readable");
    assert!(read.as_path().path_eq(plan.target.as_path()));

    let removed = remove_file_request(&ctx, &candidate, &after).expect("removable");
    assert!(removed.as_path().path_eq(plan.target.as_path()));
}

#[test]
fn io_failure_during_probe_passes_through() {
    let ctx = active_context();
    let candidate = FsPath::parse("odd.txt");
    let probe = PathProbe::Exists(Err(IoKind::Other));
    let err = read_file_request(&ctx, &candidate, &probe).expect_err("io");
    assert!(matches!(err, RunError::Io(IoKind::Other)));
}

#[test]
fn write_dot_dot_in_missing_suffix_is_rejected() {
    // `writeFile("a/../../x.txt")` under root `/sandbox` with `/sandbox/a`
    // missing: the folded target `/x.txt` leaves the root, so no plan is
    // handed out and no directory is ever created.
    let ctx = active_context();
    let candidate = FsPath::parse("a/../../x.txt");
    let probe = PathProbe::Missing(Ok(FsPath::parse("/sandbox")));
    let err = write_file_request(&ctx, &candidate, &probe).expect_err("escapes");
    assert!(matches!(err, RunError::PathEscapesSandbox));
}

#[test]
fn write_plan_carries_no_dot_dot() {
    let ctx = active_context();
    let candidate = FsPath::parse("a/../notes/data.txt");
    let probe = PathProbe::Missing(Ok(FsPath::parse("/sandbox")));
    let plan = write_file_request(&ctx, &candidate, &probe).expect("folds back inside");
    assert_eq!(plan.target.render(), "/sandbox/notes/data.txt");
    assert_eq!(plan.create_parent.expect("has a parent").render(), "/sandbox/notes");
}
