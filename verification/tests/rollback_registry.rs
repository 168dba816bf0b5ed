use stutter::rollback::{
    RestoreAllInput, RollbackCandidate, RollbackHandler, RollbackHandlerError, RollbackPreview, RollbackRegistry,
    RollbackResult,
};
use stutter::token::RollbackToken;

struct TestRollbackHandler {
    id: &'static str,
    candidates: Vec<String>,
    restore_result: RollbackResult,
    fail_discover: bool,
    fail_dry_run: bool,
    fail_restore: bool,
}

impl TestRollbackHandler {
    fn new(id: &'static str, candidates: Vec<&str>) -> Self {
        Self {
            id,
            candidates: candidates.into_iter().map(|c| c.to_owned()).collect(),
            restore_result: RollbackResult {
                handler_id: id,
                restore_path: "/tmp/restore".to_owned(),
                restored: 1,
                skipped_dead: 0,
                skipped_identity_mismatch: 0,
                legacy_unverified: 0,
                errors: 0,
                messages: Vec::new(),
            },
            fail_discover: false,
            fail_dry_run: false,
            fail_restore: false,
        }
    }

    fn with_restore_result(mut self, restore_result: RollbackResult) -> Self {
        self.restore_result = restore_result;
        self
    }

    fn with_discover_failure(mut self) -> Self {
        self.fail_discover = true;
        self
    }

    fn with_dry_run_failure(mut self) -> Self {
        self.fail_dry_run = true;
        self
    }

    fn with_restore_failure(mut self) -> Self {
        self.fail_restore = true;
        self
    }
}

impl RollbackHandler for TestRollbackHandler {
    fn handler_id(&self) -> &'static str {
        self.id()
    }

    fn discovers(&self, r: Result<Vec<RollbackCandidate>, RollbackHandlerError>) -> bool {
        r == self.discover()
    }

    fn previews(&self, candidate: RollbackCandidate, r: Result<RollbackPreview, RollbackHandlerError>) -> bool {
        r == self.dry_run(&candidate)
    }

    fn restores(&self, candidate: RollbackCandidate, r: Result<RollbackResult, RollbackHandlerError>) -> bool {
        r == self.restore(candidate)
    }

    fn id(&self) -> &'static str {
        self.id
    }

    fn discover(&self) -> Result<Vec<RollbackCandidate>, RollbackHandlerError> {
        if self.fail_discover {
            return Err(RollbackHandlerError::msg("discover failed"));
        }
        Ok(self
            .candidates
            .iter()
            .cloned()
            .map(|restore_path| RollbackCandidate {
                handler_id: self.id,
                restore_path,
            })
            .collect())
    }

    fn dry_run(&self, candidate: &RollbackCandidate) -> Result<RollbackPreview, RollbackHandlerError> {
        if self.fail_dry_run {
            return Err(RollbackHandlerError::msg("dry run failed"));
        }
        Ok(RollbackPreview {
            handler_id: self.id,
            restore_path: candidate.restore_path.clone(),
            affected_tasks: 2,
            message: "would restore test candidate".to_owned(),
        })
    }

    fn restore(&self, candidate: RollbackCandidate) -> Result<RollbackResult, RollbackHandlerError> {
        if self.fail_restore {
            return Err(RollbackHandlerError::msg("restore failed"));
        }
        let mut result = self.restore_result.clone();
        result.restore_path = candidate.restore_path;
        Ok(result)
    }
}

struct TokenRollbackHandler;

impl RollbackHandler for TokenRollbackHandler {
    fn handler_id(&self) -> &'static str {
        self.id()
    }

    fn discovers(&self, r: Result<Vec<RollbackCandidate>, RollbackHandlerError>) -> bool {
        r == self.discover()
    }

    fn previews(&self, candidate: RollbackCandidate, r: Result<RollbackPreview, RollbackHandlerError>) -> bool {
        r == self.dry_run(&candidate)
    }

    fn restores(&self, candidate: RollbackCandidate, r: Result<RollbackResult, RollbackHandlerError>) -> bool {
        r == self.restore(candidate)
    }

    fn id(&self) -> &'static str {
        "token"
    }

    fn discover(&self) -> Result<Vec<RollbackCandidate>, RollbackHandlerError> {
        Ok(Vec::new())
    }

    fn dry_run(&self, _: &RollbackCandidate) -> Result<RollbackPreview, RollbackHandlerError> {
        Err(RollbackHandlerError::msg(
            "path dry-run is not supported by token test handler",
        ))
    }

    fn restore(&self, _: RollbackCandidate) -> Result<RollbackResult, RollbackHandlerError> {
        Err(RollbackHandlerError::msg(
            "path restore is not supported by token test handler",
        ))
    }

    fn supports_token(&self, token: &RollbackToken) -> bool {
        matches!(token, RollbackToken::SysfsRestore { .. })
    }

    fn dry_run_token(&self, token: &RollbackToken) -> Result<RollbackPreview, RollbackHandlerError> {
        Ok(RollbackPreview {
            handler_id: self.id(),
            restore_path: token.restore_path().cloned().unwrap_or_default(),
            affected_tasks: token.affected_tasks(),
            message: "would restore sysfs token".to_owned(),
        })
    }

    fn restore_token(&self, token: &RollbackToken) -> Result<RollbackResult, RollbackHandlerError> {
        Ok(RollbackResult {
            handler_id: self.id(),
            restore_path: token.restore_path().cloned().unwrap_or_default(),
            restored: token.affected_tasks(),
            skipped_dead: 0,
            skipped_identity_mismatch: 0,
            legacy_unverified: 0,
            errors: 0,
            messages: vec!["restored sysfs token".to_owned()],
        })
    }
}

fn sysfs_token(path: &str, value: &str) -> RollbackToken {
    RollbackToken::SysfsRestore {
        path: path.to_owned(),
        original_value: value.to_owned(),
    }
}

#[test]
fn rollback_rollback_registry_discovers_and_previews_all_handlers() {
    let mut registry = RollbackRegistry::new();
    registry.register(TestRollbackHandler::new("affinity", vec!["/tmp/a"]));
    registry.register(TestRollbackHandler::new(
        "profile",
        vec!["/tmp/b", "/tmp/c"],
    ));

    let candidates = registry.discover_all().unwrap();
    let previews = registry.preview_all().unwrap();

    assert_eq!(candidates.len(), 3);
    assert_eq!(
        candidates
            .iter()
            .map(|candidate| candidate.handler_id)
            .collect::<Vec<_>>(),
        vec!["affinity", "profile", "profile"]
    );
    assert_eq!(previews.len(), 3);
    assert!(previews.iter().all(|preview| preview.affected_tasks == 2));
}

#[test]
fn tests_rollback_registry_discovers_and_previews_all_handlers() {
    let mut registry = RollbackRegistry::new();
    registry.register(TestRollbackHandler::new("affinity", vec!["/tmp/a"]));
    registry.register(TestRollbackHandler::new(
        "profile",
        vec!["/tmp/b", "/tmp/c"],
    ));

    let candidates = registry.discover_all().unwrap();
    let previews = registry.preview_all().unwrap();

    assert_eq!(candidates.len(), 3);
    assert_eq!(
        candidates
            .iter()
            .map(|candidate| candidate.handler_id)
            .collect::<Vec<_>>(),
        vec!["affinity", "profile", "profile"]
    );
    assert_eq!(previews.len(), 3);
    assert!(previews.iter().all(|preview| preview.affected_tasks == 2));
}

fn partial_failure_registry() -> RollbackRegistry<TestRollbackHandler> {
    let mut registry = RollbackRegistry::new();
    registry.register(
        TestRollbackHandler::new("good", vec!["/tmp/good"]).with_restore_result(RollbackResult {
            handler_id: "good",
            restore_path: "/tmp/good".to_owned(),
            restored: 3,
            skipped_dead: 1,
            skipped_identity_mismatch: 2,
            legacy_unverified: 4,
            errors: 5,
            messages: Vec::new(),
        }),
    );
    registry.register(
        TestRollbackHandler::new("restore-error", vec!["/tmp/bad"]).with_restore_failure(),
    );
    registry.register(
        TestRollbackHandler::new("discover-error", vec!["/tmp/missing"]).with_discover_failure(),
    );
    registry
}

#[test]
fn rollback_rollback_registry_restore_all_aggregates_partial_failures() {
    let registry = partial_failure_registry();
    let summary = registry.restore_all(RestoreAllInput { dry_run: false });

    assert_eq!(summary.restored_total, 3);
    assert_eq!(summary.skipped_dead, 1);
    assert_eq!(summary.skipped_identity_mismatch, 2);
    assert_eq!(summary.legacy_unverified, 4);
    assert_eq!(summary.errors, 7);
}

#[test]
fn tests_rollback_registry_restore_all_aggregates_partial_failures() {
    let registry = partial_failure_registry();
    let summary = registry.restore_all(RestoreAllInput { dry_run: false });

    assert_eq!(summary.restored_total, 3);
    assert_eq!(summary.skipped_dead, 1);
    assert_eq!(summary.skipped_identity_mismatch, 2);
    assert_eq!(summary.legacy_unverified, 4);
    assert_eq!(summary.errors, 7);
}

fn dry_run_registry() -> RollbackRegistry<TestRollbackHandler> {
    let mut registry = RollbackRegistry::new();
    registry.register(TestRollbackHandler::new("good", vec!["/tmp/a", "/tmp/b"]));
    registry
        .register(TestRollbackHandler::new("dry-run-error", vec!["/tmp/c"]).with_dry_run_failure());
    registry
}

#[test]
fn rollback_rollback_registry_dry_run_restore_all_counts_previewed_records() {
    let summary = dry_run_registry().restore_all(RestoreAllInput { dry_run: true });

    assert_eq!(summary.restored_total, 4);
    assert_eq!(summary.errors, 1);
    assert_eq!(summary.skipped_dead, 0);
}

#[test]
fn tests_rollback_registry_dry_run_restore_all_counts_previewed_records() {
    let summary = dry_run_registry().restore_all(RestoreAllInput { dry_run: true });

    assert_eq!(summary.restored_total, 4);
    assert_eq!(summary.errors, 1);
    assert_eq!(summary.skipped_dead, 0);
}

fn check_token_routing() {
    let mut registry = RollbackRegistry::new();
    registry.register(TokenRollbackHandler);
    let token = sysfs_token("/tmp/test-knob", "original");

    let preview = registry.preview_token(&token).unwrap();
    let result = registry.restore_token(&token).unwrap();

    assert_eq!(preview.handler_id, "token");
    assert_eq!(preview.restore_path, "/tmp/test-knob".to_owned());
    assert_eq!(preview.affected_tasks, 1);
    assert_eq!(result.handler_id, "token");
    assert_eq!(result.restored, 1);
    assert_eq!(result.messages, vec!["restored sysfs token"]);
}

#[test]
fn rollback_rollback_registry_routes_token_preview_and_restore_to_registered_handler() {
    check_token_routing();
}

#[test]
fn tests_rollback_registry_routes_token_preview_and_restore_to_registered_handler() {
    check_token_routing();
}

#[test]
fn rollback_handler_default_token_preview_error_is_typed() {
    let handler = TestRollbackHandler::new("default-handler", vec![]);
    let token = sysfs_token("/sys/devices/system/cpu/test-knob", "0");

    let err = handler
        .dry_run_token(&token)
        .expect_err("default token preview should be unsupported");

    let typed = err
        .as_registry_error()
        .expect("default token preview error should be typed");

    assert_eq!(
        typed.reason_code(),
        "rollback_handler_token_preview_unsupported"
    );
    assert_eq!(typed.handler_id(), Some("default-handler"));
    assert_eq!(typed.token_kind(), "sysfs-restore");
    assert!(typed
        .message()
        .contains("rollback_handler_token_preview_unsupported"));
}

#[test]
fn rollback_handler_default_token_restore_error_is_typed() {
    let handler = TestRollbackHandler::new("default-handler", vec![]);
    let token = sysfs_token("/sys/devices/system/cpu/test-knob", "0");

    let err = handler
        .restore_token(&token)
        .expect_err("default token restore should be unsupported");

    let typed = err
        .as_registry_error()
        .expect("default token restore error should be typed");

    assert_eq!(
        typed.reason_code(),
        "rollback_handler_token_restore_unsupported"
    );
    assert_eq!(typed.handler_id(), Some("default-handler"));
    assert_eq!(typed.token_kind(), "sysfs-restore");
    assert!(typed
        .message()
        .contains("rollback_handler_token_restore_unsupported"));
}

#[test]
fn rollback_registry_missing_token_handler_error_is_typed() {
    let registry = RollbackRegistry::<TestRollbackHandler>::new();
    let token = sysfs_token("/sys/devices/system/cpu/test-knob", "0");

    let err = registry
        .preview_token(&token)
        .expect_err("empty registry should not support sysfs rollback token");

    let typed = err
        .as_registry_error()
        .expect("missing token handler error should be typed");

    assert_eq!(typed.reason_code(), "rollback_handler_for_token_missing");
    assert_eq!(typed.handler_id(), None);
    assert_eq!(typed.token_kind(), "sysfs-restore");
    assert!(typed.message().contains("rollback_handler_for_token_missing"));
}

#[test]
fn rollback_registry_missing_token_restore_handler_error_is_typed() {
    let registry = RollbackRegistry::<TestRollbackHandler>::new();
    let token = sysfs_token("/sys/devices/system/cpu/test-knob", "0");

    let err = registry
        .restore_token(&token)
        .expect_err("empty registry should not support sysfs rollback token");

    let typed = err
        .as_registry_error()
        .expect("missing token restore handler error should be typed");

    assert_eq!(typed.reason_code(), "rollback_handler_for_token_missing");
    assert_eq!(typed.handler_id(), None);
    assert_eq!(typed.token_kind(), "sysfs-restore");
    assert!(typed.message().contains("rollback_handler_for_token_missing"));
}

#[test]
fn restore_all_logs_one_step_per_candidate_and_discovery_failure() {
    let registry = partial_failure_registry();
    let (summary, log) = registry.restore_all_logged(RestoreAllInput { dry_run: false });
    assert_eq!(log.len(), 3);
    assert_eq!(summary.errors, 7);
    assert_eq!(stutter::rollback::tally_steps(&log), summary);
}

#[test]
fn discover_and_preview_all_stop_at_the_first_failure() {
    let mut registry = RollbackRegistry::new();
    registry.register(TestRollbackHandler::new("first", vec!["/tmp/a"]));
    registry.register(TestRollbackHandler::new("broken", vec!["/tmp/b"]).with_discover_failure());
    registry.register(TestRollbackHandler::new("last", vec!["/tmp/c"]));
    assert_eq!(registry.discover_all().unwrap_err().message(), "discover failed");
    assert_eq!(registry.preview_all().unwrap_err().message(), "discover failed");

    let mut previewing = RollbackRegistry::new();
    previewing.register(TestRollbackHandler::new("first", vec!["/tmp/a", "/tmp/b"]));
    previewing.register(TestRollbackHandler::new("failing", vec!["/tmp/c"]).with_dry_run_failure());
    assert_eq!(previewing.discover_all().unwrap().len(), 3);
    assert_eq!(previewing.preview_all().unwrap_err().message(), "dry run failed");
}
