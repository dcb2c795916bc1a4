use std::cell::Cell;

use rust_gigachat_webapp::{
    AskQuestionUseCase, AskResult, ChatGateway, CheckHealthUseCase, DomainError, GatewayError,
    HealthGateway, HealthStatus, Question, UseCaseError,
};

struct FakeChatGateway {
    result: Result<AskResult, GatewayError>,
    calls: Cell<usize>,
}

impl ChatGateway for FakeChatGateway {
    fn ask(&self, _question: Question) -> Result<AskResult, GatewayError> {
        self.calls.set(self.calls.get() + 1);
        self.result.clone()
    }
}

struct FakeHealthGateway {
    result: Result<HealthStatus, GatewayError>,
}

impl HealthGateway for FakeHealthGateway {
    fn health(&self) -> Result<HealthStatus, GatewayError> {
        self.result.clone()
    }
}

fn answer() -> AskResult {
    AskResult {
        answer: "ok".to_string(),
        source: "mock".to_string(),
        system_prompt_applied: false,
    }
}

#[test]
fn ask_usecase_rejects_empty_question() {
    let gateway = FakeChatGateway { result: Ok(answer()), calls: Cell::new(0) };
    let usecase = AskQuestionUseCase::new(gateway);
    let error = usecase.execute(" ".to_string()).unwrap_err();
    assert!(matches!(error, UseCaseError::Domain(DomainError::EmptyQuestion)));
}

#[test]
fn health_usecase_returns_result() {
    let gateway = FakeHealthGateway {
        result: Ok(HealthStatus {
            status: "ok".to_string(),
            version: "0.1.0".to_string(),
            gigachat_enabled: false,
        }),
    };
    let usecase = CheckHealthUseCase::new(gateway);
    let result = usecase.execute().unwrap();
    assert_eq!(result.status, "ok");
}

struct CountingGateway<'a> {
    calls: &'a Cell<usize>,
}

impl ChatGateway for CountingGateway<'_> {
    fn ask(&self, question: Question) -> Result<AskResult, GatewayError> {
        self.calls.set(self.calls.get() + 1);
        Ok(AskResult {
            answer: question.as_str().to_string(),
            source: "echo".to_string(),
            system_prompt_applied: true,
        })
    }
}

#[test]
fn blank_question_never_reaches_the_gateway() {
    let calls = Cell::new(0);
    let usecase = AskQuestionUseCase::new(CountingGateway { calls: &calls });
    assert_eq!(
        usecase.execute("   ".to_string()),
        Err(UseCaseError::Domain(DomainError::EmptyQuestion))
    );
    assert_eq!(calls.get(), 0);
}

#[test]
fn question_reaches_the_gateway_as_typed() {
    let calls = Cell::new(0);
    let usecase = AskQuestionUseCase::new(CountingGateway { calls: &calls });
    let r = usecase.execute(" why? ".to_string()).unwrap();
    assert_eq!(r.answer, " why? ");
    assert_eq!(calls.get(), 1);
}

#[test]
fn ask_gateway_failure_is_wrapped() {
    let gateway = FakeChatGateway {
        result: Err(GatewayError::Network("down".to_string())),
        calls: Cell::new(0),
    };
    let usecase = AskQuestionUseCase::new(gateway);
    assert_eq!(
        usecase.execute("q".to_string()),
        Err(UseCaseError::Gateway(GatewayError::Network("down".to_string())))
    );
}

#[test]
fn health_usecase_returns_the_exact_status() {
    let status = HealthStatus {
        status: "ok".to_string(),
        version: "0.1.0".to_string(),
        gigachat_enabled: false,
    };
    let usecase = CheckHealthUseCase::new(FakeHealthGateway { result: Ok(status.clone()) });
    assert_eq!(usecase.execute(), Ok(status));
}

#[test]
fn health_gateway_failure_is_wrapped() {
    let usecase = CheckHealthUseCase::new(FakeHealthGateway { result: Err(GatewayError::InvalidPayload) });
    assert_eq!(usecase.execute(), Err(UseCaseError::Gateway(GatewayError::InvalidPayload)));
}

#[test]
fn error_messages_render_each_variant() {
    assert_eq!(
        UseCaseError::Domain(DomainError::EmptyQuestion).message(),
        "Ошибка домена: Вопрос не должен быть пустым"
    );
    assert_eq!(
        UseCaseError::Domain(DomainError::EmptyBaseUrl).message(),
        "Ошибка домена: Базовый URL API не задан"
    );
    assert_eq!(
        UseCaseError::Gateway(GatewayError::Network("timeout".to_string())).message(),
        "Ошибка шлюза: Сетевая ошибка: timeout"
    );
    assert_eq!(
        UseCaseError::Gateway(GatewayError::Api("boom".to_string())).message(),
        "Ошибка шлюза: Ошибка API: boom"
    );
    assert_eq!(
        UseCaseError::Gateway(GatewayError::InvalidPayload).message(),
        "Ошибка шлюза: Некорректный ответ API"
    );
}
