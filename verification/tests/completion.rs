use commitgpt::{
    candidates, read_reply, request, Args, Cli, CompletionRequest, Config, Error, Message, Model,
    Reply, Role,
};

fn settings() -> Config {
    Config {
        api_key: "k".to_string(),
        context_prefix: "be brief".to_string(),
        suggestions: 3,
        ignore_space: true,
        max_tokens: 250,
        model: Model::GPT3X5Turbo0301,
    }
}

fn prompt(prefix: &str, reason: &str, diff: &str) -> Vec<Message> {
    vec![
        Message { role: Role::System, content: prefix.to_string() },
        Message {
            role: Role::User,
            content: format!("\nWhy: {reason}\nWhat: ```diff\n{diff}\n```\n"),
        },
    ]
}

#[test]
fn request_holds_the_settings_and_the_prompt() {
    assert_eq!(
        request(&settings(), "because", "+x"),
        CompletionRequest {
            model: "gpt-3.5-turbo-0301".to_string(),
            n: 3,
            max_tokens: 250,
            messages: prompt("be brief", "because", "+x"),
        }
    );
}

#[test]
fn cli_request_uses_the_overrides() {
    let cli = Cli::new(
        settings(),
        Args {
            suggestions: Some(7),
            ignore_space: None,
            max_tokens: Some(100),
            model: Some(Model::GPT4),
            path: Vec::new(),
            reason: "speed".to_string(),
        },
    );
    assert_eq!(
        cli.request("-slow\n+fast".to_string()),
        CompletionRequest {
            model: "gpt-4".to_string(),
            n: 7,
            max_tokens: 100,
            messages: prompt("be brief", "speed", "-slow\n+fast"),
        }
    );
}

#[test]
fn cli_request_without_overrides_uses_the_file() {
    let cli = Cli::new(
        settings(),
        Args {
            suggestions: None,
            ignore_space: None,
            max_tokens: None,
            model: None,
            path: Vec::new(),
            reason: String::new(),
        },
    );
    let wanted = cli.request("+a".to_string());
    assert_eq!(wanted.model, "gpt-3.5-turbo-0301");
    assert_eq!(wanted.n, 3);
    assert_eq!(wanted.max_tokens, 250);
}

#[test]
fn request_cuts_the_diff() {
    let wanted = request(&settings(), "r", &"d".repeat(4000));
    assert_eq!(wanted.messages, prompt("be brief", "r", &"d".repeat(3800)));
}

#[test]
fn candidates_of_complete_choices() {
    assert_eq!(
        candidates(vec![Some("one".to_string()), Some(String::new()), Some("three\n".to_string())]),
        Some(vec!["one".to_string(), String::new(), "three\n".to_string()])
    );
    assert_eq!(candidates(Vec::new()), Some(Vec::new()));
}

#[test]
fn candidates_with_a_missing_text() {
    assert_eq!(candidates(vec![None]), None);
    assert_eq!(candidates(vec![Some("one".to_string()), None, Some("three".to_string())]), None);
    assert_eq!(candidates(vec![Some("one".to_string()), Some("two".to_string()), None]), None);
}

#[test]
fn a_failure_carries_the_body_verbatim() {
    let body = "{\n  \"error\": { \"message\": \"Rate limit reached\", \"code\": 429 }\n}\n";
    assert_eq!(
        read_reply(Reply::Failure(body.to_string())),
        Err(Error::FetchData(body.to_string()))
    );
    assert_eq!(read_reply(Reply::Failure(String::new())), Err(Error::FetchData(String::new())));
}

#[test]
fn choices_are_the_candidates() {
    let texts = vec!["b".to_string(), "a".to_string(), "b".to_string()];
    assert_eq!(read_reply(Reply::Choices(texts.clone())), Ok(texts));
    assert_eq!(read_reply(Reply::Choices(Vec::new())), Ok(Vec::new()));
}
