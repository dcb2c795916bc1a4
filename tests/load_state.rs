use rust_gigachat_webapp::labels::{mode_label, status_class, yes_no};
use rust_gigachat_webapp::{DomainError, GatewayError, HealthStatus, HealthViewState, LoadState, UseCaseError};

#[test]
fn trigger_from_ready_goes_to_loading() {
    let mut s: LoadState<u32> = LoadState::Ready(7);
    s.start();
    assert_eq!(s, LoadState::Loading);
    assert!(s.is_loading());
}

#[test]
fn trigger_from_error_or_idle_goes_to_loading() {
    let mut s: LoadState<u32> = LoadState::Error("e".to_string());
    s.start();
    assert!(s.is_loading());
    let mut s: LoadState<u32> = LoadState::Idle;
    assert!(!s.is_loading());
    s.start();
    assert!(s.is_loading());
}

#[test]
fn settle_gives_value_or_message() {
    let mut s: LoadState<u32> = LoadState::Loading;
    s.settle(Ok(3));
    assert_eq!(s, LoadState::Ready(3));
    s.start();
    s.settle(Err(UseCaseError::Gateway(GatewayError::Api("boom".to_string()))));
    assert_eq!(s, LoadState::Error("Ошибка шлюза: Ошибка API: boom".to_string()));
    s.start();
    s.reject(DomainError::EmptyBaseUrl);
    assert_eq!(s, LoadState::Error("Ошибка домена: Базовый URL API не задан".to_string()));
}

#[test]
fn health_view_records_time_only_when_a_probe_ends() {
    let mut h = HealthViewState::idle();
    assert_eq!(h.state, LoadState::Idle);
    assert_eq!(h.last_checked, None);
    h.start();
    assert_eq!(h.state, LoadState::Loading);
    assert_eq!(h.last_checked, None);
    let status = HealthStatus { status: "ok".to_string(), version: "1".to_string(), gigachat_enabled: true };
    h.settle(Ok(status.clone()), "12:00".to_string());
    assert_eq!(h.state, LoadState::Ready(status));
    assert_eq!(h.last_checked, Some("12:00".to_string()));
    h.start();
    assert_eq!(h.last_checked, None);
    h.settle(Err(UseCaseError::Gateway(GatewayError::InvalidPayload)), "12:01".to_string());
    assert_eq!(h.state, LoadState::Error("Ошибка шлюза: Некорректный ответ API".to_string()));
    assert_eq!(h.last_checked, Some("12:01".to_string()));
    h.start();
    assert_eq!(h.last_checked, None);
    h.reject(DomainError::EmptyBaseUrl, "12:02".to_string());
    assert_eq!(h.state, LoadState::Error("Ошибка домена: Базовый URL API не задан".to_string()));
    assert_eq!(h.last_checked, Some("12:02".to_string()));
}

#[test]
fn labels_follow_the_flags() {
    assert_eq!(yes_no(true), "да");
    assert_eq!(yes_no(false), "нет");
    assert_eq!(mode_label(true), "GigaChat");
    assert_eq!(mode_label(false), "mock");
    assert_eq!(status_class("OK"), "pill pill--success");
    assert_eq!(status_class("oK"), "pill pill--success");
    assert_eq!(status_class("okay"), "pill pill--warning");
    assert_eq!(status_class(""), "pill pill--warning");
}
