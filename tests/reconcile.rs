use databricks_kube::action::{requeue_secs, Action};
use databricks_kube::address::self_url;
use databricks_kube::engine::{settle, Deletion, Outcome, Pass, Phase, Step};
use databricks_kube::error::DatabricksKubeError;
use databricks_kube::finalizer::{classify, FinalizerState};
use databricks_kube::repo::GetRepoResponse;

#[derive(Clone, Debug, PartialEq)]
struct RepoResource {
    name: String,
    url: String,
    branch: String,
    id: Option<i64>,
}

fn expected_of(r: &RepoResource) -> GetRepoResponse {
    let mut dto = GetRepoResponse::new();
    dto.id = r.id;
    dto.url = Some(r.url.clone());
    dto.branch = Some(r.branch.clone());
    dto
}

fn repo_a() -> RepoResource {
    RepoResource {
        name: "repo-A".to_string(),
        url: "https://git/x".to_string(),
        branch: "main".to_string(),
        id: None,
    }
}

type Out = Outcome<RepoResource, GetRepoResponse>;

#[test]
fn create_then_steady_state() {
    let local = repo_a();
    let (mut pass, step) = Pass::<GetRepoResponse>::start::<RepoResource>(
        FinalizerState::Finalized,
        expected_of(&local),
        None,
    );
    assert!(matches!(step, Step::Get));
    let step = pass.advance(Out::Fetched(Err(DatabricksKubeError::IDUnsetError)));
    assert!(matches!(step, Step::Create));
    let mut created = local.clone();
    created.id = Some(42);
    let step = pass.advance(Out::Created(Ok(created.clone())));
    match step {
        Step::Replace(l) => {
            assert_eq!(l, created);
            assert_eq!(l.id, Some(42));
        }
        other => panic!("unexpected step {:?}", other),
    }
    let step = pass.advance(Out::Replaced(Ok(())));
    assert!(matches!(step, Step::EveryReconcile));
    let step = pass.advance(Out::HookRan(Ok(())));
    assert!(matches!(step, Step::Done(Ok(Action::RequeueAfter(300)))));
    assert_eq!(pass.phase, Phase::Finished);

    // second pass: the remote object agrees with the stored one
    let (mut pass, step) = Pass::<GetRepoResponse>::start::<RepoResource>(
        FinalizerState::Finalized,
        expected_of(&created),
        None,
    );
    assert!(matches!(step, Step::Get));
    let mut remote = GetRepoResponse::new();
    remote.id = Some(42);
    remote.url = Some("https://git/x".to_string());
    remote.branch = Some("main".to_string());
    let step = pass.advance(Out::Fetched(Ok(remote)));
    assert!(matches!(step, Step::EveryReconcile));
    let step = pass.advance(Out::HookRan(Ok(())));
    match step {
        Step::Done(r) => assert_eq!(settle(&r), Action::RequeueAfter(300)),
        other => panic!("unexpected step {:?}", other),
    }
}

#[test]
fn drift_is_updated() {
    let mut local = repo_a();
    local.id = Some(42);
    local.branch = "dev".to_string();
    let (mut pass, _) = Pass::<GetRepoResponse>::start::<RepoResource>(
        FinalizerState::Finalized,
        expected_of(&local),
        None,
    );
    let mut remote = GetRepoResponse::new();
    remote.id = Some(42);
    remote.url = Some("https://git/x".to_string());
    remote.branch = Some("main".to_string());
    let step = pass.advance(Out::Fetched(Ok(remote)));
    assert!(matches!(step, Step::Update));
    assert_eq!(pass.expected.branch, Some("dev".to_string()));
    let step = pass.advance(Out::Updated(Ok(local.clone())));
    match step {
        Step::Replace(l) => assert_eq!(l.branch, "dev"),
        other => panic!("unexpected step {:?}", other),
    }
    let step = pass.advance(Out::Replaced(Ok(())));
    assert!(matches!(step, Step::EveryReconcile));
    let step = pass.advance(Out::HookRan(Ok(())));
    assert!(matches!(step, Step::Done(Ok(Action::RequeueAfter(300)))));
}

#[test]
fn deletion_removes_finalizer() {
    let state = classify(true, true);
    assert_eq!(state, FinalizerState::Deleting);
    let (mut pass, step) =
        Pass::<GetRepoResponse>::start::<RepoResource>(state, expected_of(&repo_a()), None);
    assert!(matches!(step, Step::Delete));
    let step = pass.advance(Out::Deleted(Deletion::Removed));
    assert!(matches!(step, Step::RemoveFinalizer));
    let step = pass.advance(Out::FinalizerRemoved(Ok(())));
    assert!(matches!(step, Step::Done(Ok(Action::AwaitChange))));
    assert_eq!(classify(false, true), FinalizerState::Gone);
}

#[test]
fn absent_remote_delete_is_success() {
    let (mut pass, _) = Pass::<GetRepoResponse>::start::<RepoResource>(
        FinalizerState::Deleting,
        GetRepoResponse::new(),
        None,
    );
    let step = pass.advance(Out::Deleted(Deletion::Absent));
    assert!(matches!(step, Step::RemoveFinalizer));
}

#[test]
fn failed_remote_delete_keeps_finalizer() {
    let (mut pass, _) = Pass::<GetRepoResponse>::start::<RepoResource>(
        FinalizerState::Deleting,
        GetRepoResponse::new(),
        None,
    );
    let step = pass.advance(Out::Deleted(Deletion::Failed(DatabricksKubeError::RemoteAPIError(
        "503".to_string(),
    ))));
    match step {
        Step::Done(r) => {
            assert!(matches!(r, Err(DatabricksKubeError::RemoteAPIError(_))));
            assert_eq!(settle(&r), Action::RequeueAfter(30));
        }
        other => panic!("unexpected step {:?}", other),
    }
    assert_eq!(pass.phase, Phase::Finished);
}

#[test]
fn remote_error_on_get_backs_off() {
    let (mut pass, _) = Pass::<GetRepoResponse>::start::<RepoResource>(
        FinalizerState::Finalized,
        GetRepoResponse::new(),
        Some(60),
    );
    let err = DatabricksKubeError::RemoteAPIError("timeout".to_string());
    let step = pass.advance(Out::Fetched(Err(err.clone())));
    match step {
        Step::Done(r) => {
            assert_eq!(r, Err(err));
            assert_eq!(settle(&r), Action::RequeueAfter(30));
        }
        other => panic!("unexpected step {:?}", other),
    }
}

#[test]
fn store_error_after_update_backs_off() {
    let (mut pass, _) = Pass::<GetRepoResponse>::start::<RepoResource>(
        FinalizerState::Finalized,
        expected_of(&repo_a()),
        None,
    );
    let step = pass.advance(Out::Fetched(Ok(GetRepoResponse::new())));
    assert!(matches!(step, Step::Update));
    let _ = pass.advance(Out::Updated(Ok(repo_a())));
    let err = DatabricksKubeError::ResourceUpdateError("conflict".to_string());
    let step = pass.advance(Out::Replaced(Err(err.clone())));
    match step {
        Step::Done(r) => {
            assert_eq!(r, Err(err));
            assert_eq!(settle(&r), Action::RequeueAfter(30));
        }
        other => panic!("unexpected step {:?}", other),
    }
}

#[test]
fn new_object_gets_finalizer_first() {
    assert_eq!(classify(false, false), FinalizerState::NoFinalizer);
    let (mut pass, step) = Pass::<GetRepoResponse>::start::<RepoResource>(
        FinalizerState::NoFinalizer,
        GetRepoResponse::new(),
        None,
    );
    assert!(matches!(step, Step::AddFinalizer));
    let step = pass.advance(Out::FinalizerAdded(Ok(())));
    assert!(matches!(step, Step::Get));
}

#[test]
fn gone_object_needs_nothing() {
    let (pass, step) = Pass::<GetRepoResponse>::start::<RepoResource>(
        FinalizerState::Gone,
        GetRepoResponse::new(),
        None,
    );
    assert!(matches!(step, Step::Done(Ok(Action::AwaitChange))));
    assert_eq!(pass.phase, Phase::Finished);
}

#[test]
fn configured_interval_is_used() {
    assert_eq!(requeue_secs(Some(60)), 60);
    assert_eq!(requeue_secs(None), 300);
    let (mut pass, _) = Pass::<GetRepoResponse>::start::<RepoResource>(
        FinalizerState::Finalized,
        GetRepoResponse::new(),
        Some(60),
    );
    let step = pass.advance(Out::Fetched(Ok(GetRepoResponse::new())));
    assert!(matches!(step, Step::EveryReconcile));
    let step = pass.advance(Out::HookRan(Ok(())));
    assert!(matches!(step, Step::Done(Ok(Action::RequeueAfter(60)))));
}

#[test]
fn hook_error_backs_off() {
    let (mut pass, _) = Pass::<GetRepoResponse>::start::<RepoResource>(
        FinalizerState::Finalized,
        GetRepoResponse::new(),
        None,
    );
    let _ = pass.advance(Out::Fetched(Ok(GetRepoResponse::new())));
    let step = pass.advance(Out::HookRan(Err(DatabricksKubeError::RemoteAPIError("x".to_string()))));
    match step {
        Step::Done(r) => assert_eq!(settle(&r), Action::RequeueAfter(30)),
        other => panic!("unexpected step {:?}", other),
    }
}

#[test]
fn accepts_only_the_awaited_outcome() {
    let (pass, _) = Pass::<GetRepoResponse>::start::<RepoResource>(
        FinalizerState::Finalized,
        GetRepoResponse::new(),
        None,
    );
    assert!(pass.accepts(&Out::Fetched(Ok(GetRepoResponse::new()))));
    assert!(!pass.accepts(&Out::Created(Ok(repo_a()))));
    assert!(!pass.accepts(&Out::Deleted(Deletion::Absent)));
}

#[test]
fn repo_response_equality() {
    let blank = GetRepoResponse::new();
    assert_eq!(blank.id, None);
    assert_eq!(blank.url, None);
    assert_eq!(blank.head_commit_id, None);
    let a = expected_of(&repo_a());
    let mut b = a.clone();
    assert!(a == b);
    b.branch = Some("dev".to_string());
    assert!(a != b);
    assert!(a != blank);
}

#[test]
fn url_joins_collection_and_name() {
    assert_eq!(
        self_url("/apis/com.dstoll.databricks/v1/namespaces/default/repos", "repo-A"),
        "/apis/com.dstoll.databricks/v1/namespaces/default/repos/repo-A"
    );
}

#[test]
fn error_messages() {
    assert_eq!(DatabricksKubeError::RemoteAPIError("boom".to_string()).message(), "boom");
    assert!(DatabricksKubeError::IDUnsetError.identity_unset());
    assert!(!DatabricksKubeError::ControllerError("w".to_string()).identity_unset());
}

#[test]
fn failed_finalizer_add_stops_before_remote_calls() {
    let (mut pass, _) = Pass::<GetRepoResponse>::start::<RepoResource>(
        FinalizerState::NoFinalizer,
        expected_of(&repo_a()),
        None,
    );
    let err = DatabricksKubeError::ResourceUpdateError("forbidden".to_string());
    let step = pass.advance(Out::FinalizerAdded(Err(err.clone())));
    match step {
        Step::Done(r) => {
            assert_eq!(r, Err(err));
            assert_eq!(settle(&r), Action::RequeueAfter(30));
        }
        other => panic!("unexpected step {:?}", other),
    }
    assert!(!pass.accepts(&Out::Fetched(Ok(GetRepoResponse::new()))));
}

#[test]
fn identity_message_is_fixed() {
    assert_eq!(DatabricksKubeError::IDUnsetError.message(), "remote identity is not set");
}
