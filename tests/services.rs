use fast_realworld::app::settings::{found, int_of, AppConfig, Table};
use fast_realworld::services::article::{self, ArticleService};
use fast_realworld::services::{plan_services, profile, tag, user, ServiceKind};
use fast_realworld::shutdown::{MainStopper, ShutdownAction, ShutdownPhase, StopEvent};
use fast_realworld::AppError;

fn names(v: &[&str]) -> Vec<String> {
    v.iter().map(|s| s.to_string()).collect()
}

#[test]
fn service_names() {
    assert_eq!(ServiceKind::from_name("User"), Some(ServiceKind::User));
    assert_eq!(ServiceKind::from_name("Tag"), Some(ServiceKind::Tag));
    assert_eq!(ServiceKind::from_name("user"), None);
    assert_eq!(
        plan_services(&names(&["User", "Profile", "Article", "Tag"])).ok(),
        Some(vec![ServiceKind::User, ServiceKind::Profile, ServiceKind::Article, ServiceKind::Tag])
    );
    assert_eq!(plan_services(&names(&[])).ok(), Some(vec![]));
}

#[test]
fn service_list_errors() {
    assert!(matches!(plan_services(&names(&["User", "Blog"])), Err(AppError::BadConfig(_))));
    assert!(matches!(plan_services(&names(&["Tag", "User", "Tag"])), Err(AppError::BadConfig(_))));
}

#[test]
fn article_permissions() {
    let s = ArticleService { allow_update: true, allow_delete: false, allow_comments: true };
    assert!(s.may_update(1, 1));
    assert!(!s.may_update(1, 2));
    assert!(!s.may_delete(1, 1));
    assert!(s.may_comment());
    assert!(s.may_delete_comment(4, 4));
    assert!(!s.may_delete_comment(4, 5));
    let d = article::new_factory();
    assert!(!d.allow_update && !d.allow_delete && !d.allow_comments);
    assert!(!user::new_factory().allow_register);
    let _ = profile::new_factory();
    let _ = tag::new_factory();
}

#[test]
fn settings_from_config() {
    let conf = config::Config::builder()
        .set_override("Article.allow_update", true)
        .unwrap()
        .set_override("Article.allow_comments", "true")
        .unwrap()
        .set_override("db.url", "postgres://localhost/app")
        .unwrap()
        .set_override("server.workers", 4)
        .unwrap()
        .build()
        .unwrap();
    let cfg = AppConfig { conf };
    assert_eq!(cfg.get_str("db.url").ok(), Some(Some("postgres://localhost/app".to_string())));
    assert_eq!(cfg.get_int("server.workers").ok(), Some(Some(4)));
    assert_eq!(cfg.get_bool("debug").ok(), Some(None));
    assert!(matches!(cfg.get_int("db.url"), Err(AppError::ConfigError { .. })));
    assert!(cfg.get_array("servers").ok().unwrap().is_none());
    let table = cfg.get_table("Article").ok().unwrap().unwrap();
    assert_eq!(table.get_bool("allow_update").ok(), Some(Some(true)));
    assert_eq!(table.get_str("missing").ok(), Some(None));

    let mut s = ArticleService::default();
    s.load_app_config(&cfg, "api").ok().unwrap();
    assert!(s.allow_update);
    assert!(!s.allow_delete);
    assert!(s.allow_comments);
    let mut u = user::new_factory();
    u.load_app_config(&cfg, "api").ok().unwrap();
    assert!(!u.allow_register);

    let empty = Table::new();
    assert!(empty.get("x").is_none());
    assert!(empty.into_inner().is_empty());
}

#[test]
fn shutdown_after_request() {
    let mut m = MainStopper::new(3);
    assert_eq!(m.get_phase(), ShutdownPhase::Waiting(0));
    assert_eq!(m.on_event(StopEvent::StopServerFinished(0)).ok(), Some(ShutdownAction::Wait));
    assert_eq!(m.on_event(StopEvent::Shutdown).ok(), Some(ShutdownAction::StopAll));
    assert_eq!(m.get_phase(), ShutdownPhase::Draining(3));
    assert_eq!(m.on_event(StopEvent::StopServerFinished(1)).ok(), Some(ShutdownAction::Wait));
    assert_eq!(m.on_event(StopEvent::StopServerFinished(2)).ok(), Some(ShutdownAction::Wait));
    assert_eq!(m.on_event(StopEvent::StopServerFinished(0)).ok(), Some(ShutdownAction::Finished));
    assert_eq!(m.get_phase(), ShutdownPhase::Done);
}

#[test]
fn shutdown_when_all_servers_stop() {
    let mut m = MainStopper::new(2);
    assert_eq!(m.on_event(StopEvent::StopServerFinished(1)).ok(), Some(ShutdownAction::Wait));
    assert_eq!(m.on_event(StopEvent::StopServerFinished(0)).ok(), Some(ShutdownAction::Finished));
    assert_eq!(MainStopper::new(0).get_phase(), ShutdownPhase::Done);
}

#[test]
fn unexpected_stop_event_is_reported() {
    let mut m = MainStopper::new(1);
    assert!(matches!(m.on_event(StopEvent::StopServer), Err(AppError::InvariantViolation(_))));
    assert_eq!(m.get_phase(), ShutdownPhase::Waiting(0));
    m.on_event(StopEvent::Shutdown).ok().unwrap();
    assert!(matches!(m.on_event(StopEvent::Shutdown), Err(AppError::InvariantViolation(_))));
    assert_eq!(m.get_phase(), ShutdownPhase::Draining(1));
}

#[test]
fn lookup_outcomes() {
    assert!(matches!(found(Err(config::ConfigError::NotFound("k".into()))), Ok(None)));
    assert!(matches!(found(Err(config::ConfigError::Message("bad".into()))), Err(AppError::ConfigError { .. })));
    assert!(matches!(found(Ok(config::Value::from(3i64))), Ok(Some(_))));
    assert_eq!(int_of(None).ok(), Some(None));
    assert_eq!(int_of(Some(config::Value::from(7i64))).ok(), Some(Some(7)));
    assert!(matches!(int_of(Some(config::Value::from("seven"))), Err(AppError::ConfigError { .. })));
}
