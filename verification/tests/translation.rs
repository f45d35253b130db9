use java2php::translator::{
    build_prompt, prepare_request, read_exchange, request_with_budget, Exchange, Reply,
    TranslationError, CONTEXT_SIZE, MAX_PROMPT_CHARS,
};

fn answered(status: u16, choices: &[&str]) -> Exchange {
    Exchange::Answered {
        status,
        reply: Reply::Choices(choices.iter().map(|s| s.to_string()).collect()),
    }
}

#[test]
fn prompt_wraps_the_content() {
    assert_eq!(build_prompt("class A {}"), "#Java to PHP:\nJava:\nclass A {}\n\nPHP:");
    assert_eq!(build_prompt(""), "#Java to PHP:\nJava:\n\n\nPHP:");
}

#[test]
fn request_takes_the_budget() {
    let q = request_with_budget("p".to_string(), Ok(17)).unwrap();
    assert_eq!(q.model, "text-davinci-003");
    assert_eq!(q.prompt, "p");
    assert_eq!(q.max_tokens, 17);
}

#[test]
fn request_fails_without_a_budget() {
    match request_with_budget("p".to_string(), Err("no tokenizer".to_string())) {
        Err(TranslationError::Tokenizer(m)) => assert_eq!(m, "no tokenizer"),
        other => panic!("{:?}", other),
    }
}

#[test]
fn prepared_request_leaves_room_for_the_answer() {
    let q = prepare_request("class A {}").unwrap();
    assert_eq!(q.model, "text-davinci-003");
    assert_eq!(q.prompt, "#Java to PHP:\nJava:\nclass A {}\n\nPHP:");
    assert_eq!(q.max_tokens, 4080);
}

#[test]
fn longer_content_leaves_fewer_tokens() {
    let short = prepare_request("class A {}").unwrap();
    let long = prepare_request("class A { int x; int y; int z; void run() { x = y + z; } }").unwrap();
    assert!(long.max_tokens < short.max_tokens);
}

#[test]
fn oversized_content_leaves_no_tokens() {
    let content = "int value = 1;\n".repeat(2000);
    let q = prepare_request(&content).unwrap();
    assert_eq!(q.max_tokens, 0);
}

#[test]
fn first_candidate_is_the_translation() {
    let r = read_exchange(answered(200, &["<?php class A {}", "other"]));
    assert_eq!(r.unwrap(), "<?php class A {}");
}

#[test]
fn empty_candidate_is_still_a_translation() {
    let r = read_exchange(answered(200, &[""]));
    assert_eq!(r.unwrap(), "");
}

#[test]
fn no_candidate_is_a_failure() {
    match read_exchange(answered(200, &[])) {
        Err(e @ TranslationError::NoResult) => assert_eq!(e.message(), "No choice received"),
        other => panic!("{:?}", other),
    }
}

#[test]
fn failed_exchange_is_a_network_error() {
    match read_exchange(Exchange::Failed("connection reset".to_string())) {
        Err(e @ TranslationError::Network(_)) => assert_eq!(e.message(), "connection reset"),
        other => panic!("{:?}", other),
    }
}

#[test]
fn reported_error_is_a_remote_error() {
    let exchange = Exchange::Answered { status: 401, reply: Reply::Error("bad key".to_string()) };
    match read_exchange(exchange) {
        Err(e @ TranslationError::Remote(_)) => assert_eq!(e.message(), "bad key"),
        other => panic!("{:?}", other),
    }
    let exchange = Exchange::Answered { status: 200, reply: Reply::Error("overloaded".to_string()) };
    assert!(matches!(read_exchange(exchange), Err(TranslationError::Remote(_))));
}

#[test]
fn unsuccessful_status_is_a_status_error() {
    for status in [199u16, 300, 404, 500] {
        match read_exchange(answered(status, &["text"])) {
            Err(e @ TranslationError::Status(_)) => {
                assert!(matches!(e, TranslationError::Status(s) if s == status));
                assert_eq!(e.message(), "Unsuccessful response status");
            }
            other => panic!("{:?}", other),
        }
    }
}

#[test]
fn whole_success_range_is_accepted() {
    assert_eq!(read_exchange(answered(200, &["a"])).unwrap(), "a");
    assert_eq!(read_exchange(answered(299, &["a"])).unwrap(), "a");
}

#[test]
fn tokenizer_error_shows_its_text() {
    assert_eq!(TranslationError::Tokenizer("unknown model".to_string()).message(), "unknown model");
}

#[test]
fn budget_stays_within_the_context_size() {
    assert_eq!(CONTEXT_SIZE, 4097);
    for content in ["", "x", "class A {}", "<|endoftext|>"] {
        let q = prepare_request(content).unwrap();
        assert!(q.max_tokens <= CONTEXT_SIZE);
        assert!(q.max_tokens > 0);
    }
}

#[test]
fn limit_is_the_context_in_longest_tokens() {
    assert_eq!(MAX_PROMPT_CHARS, CONTEXT_SIZE * 128);
}

#[test]
fn huge_blank_content_leaves_no_tokens() {
    let content = "\n".repeat(1_000_000);
    let q = prepare_request(&content).unwrap();
    assert_eq!(q.model, "text-davinci-003");
    assert_eq!(q.prompt, build_prompt(&content));
    assert_eq!(q.max_tokens, 0);
}

#[test]
fn huge_run_of_letters_leaves_no_tokens() {
    let content = "a".repeat(2_000_000);
    let q = prepare_request(&content).unwrap();
    assert_eq!(q.prompt.len(), 2_000_026);
    assert_eq!(q.max_tokens, 0);
}

#[test]
fn prompt_one_character_over_the_limit_leaves_no_tokens() {
    let overhead = build_prompt("").chars().count();
    assert_eq!(overhead, 26);
    let content = format!("{}b", "a ".repeat((MAX_PROMPT_CHARS - overhead) / 2));
    assert_eq!(build_prompt(&content).chars().count(), MAX_PROMPT_CHARS + 1);
    let q = prepare_request(&content).unwrap();
    assert_eq!(q.prompt, build_prompt(&content));
    assert_eq!(q.max_tokens, 0);
}

#[test]
fn prompt_at_the_limit_is_sized() {
    let overhead = build_prompt("").chars().count();
    let content = "a ".repeat((MAX_PROMPT_CHARS - overhead) / 2);
    assert_eq!(build_prompt(&content).chars().count(), MAX_PROMPT_CHARS);
    let q = prepare_request(&content).unwrap();
    assert_eq!(q.max_tokens, 0);
}

#[test]
fn limit_counts_characters_not_bytes() {
    let overhead = build_prompt("").chars().count();
    let content = "é ".repeat((MAX_PROMPT_CHARS - overhead) / 2);
    assert!(content.len() + overhead > MAX_PROMPT_CHARS);
    assert_eq!(build_prompt(&content).chars().count(), MAX_PROMPT_CHARS);
    assert_eq!(prepare_request(&content).unwrap().max_tokens, 0);
}

#[test]
fn long_run_of_blanks_is_sized() {
    let content = " ".repeat(20_000);
    let q = prepare_request(&content).unwrap();
    assert!(q.max_tokens < CONTEXT_SIZE);
}

#[test]
fn undecoded_body_with_bad_status_is_a_status_error() {
    let exchange = Exchange::Undecoded { status: 502, message: "expected value".to_string() };
    assert!(matches!(read_exchange(exchange), Err(TranslationError::Status(502))));
}

#[test]
fn undecoded_body_with_good_status_is_a_network_error() {
    let exchange = Exchange::Undecoded { status: 200, message: "expected value".to_string() };
    match read_exchange(exchange) {
        Err(e @ TranslationError::Network(_)) => assert_eq!(e.message(), "expected value"),
        other => panic!("{:?}", other),
    }
}
