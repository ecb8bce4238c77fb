use job_listing::chat::Conversation;
use job_listing::chat::Message;
use job_listing::chat::Role;
use job_listing::chat::NO_REPLY;
use job_listing::chat::SYSTEM_PROMPT;
use job_listing::error::Error;

fn message(role: Role, content: &str) -> Message {
    Message { role, content: content.to_string() }
}

#[test]
fn conversation_starts_with_the_system_prompt() {
    let conversation = Conversation::new(SYSTEM_PROMPT);
    assert_eq!(
        conversation.messages(),
        &vec![message(Role::System, "You extract information from Job listings")]
    );
}

#[test]
fn asking_appends_the_user_message() {
    let turn = Conversation::new("prompt").ask("What is the salary?".to_string());
    assert_eq!(
        turn.request(),
        &vec![message(Role::System, "prompt"), message(Role::User, "What is the salary?")]
    );
}

#[test]
fn answer_appends_the_first_choice() {
    let turn = Conversation::new("prompt").ask("first".to_string());
    let (conversation, text) = turn
        .answer(vec![Some("one ".to_string()), Some("two".to_string())])
        .expect("the reply has a choice");
    assert_eq!(text, "one ");
    assert_eq!(
        conversation.messages(),
        &vec![
            message(Role::System, "prompt"),
            message(Role::User, "first"),
            message(Role::Assistant, "one "),
        ]
    );
}

#[test]
fn turns_alternate() {
    let mut conversation = Conversation::new("prompt");
    for round in 0..3 {
        let turn = conversation.ask(format!("question {}", round));
        assert_eq!(turn.request().len(), 2 * round + 2);
        let (next, text) = turn
            .answer(vec![Some(format!("answer {}", round))])
            .expect("the reply has a choice");
        assert_eq!(text, format!("answer {}", round));
        conversation = next;
    }
    let roles: Vec<Role> = conversation.messages().iter().map(|m| m.role).collect();
    assert_eq!(
        roles,
        vec![
            Role::System,
            Role::User,
            Role::Assistant,
            Role::User,
            Role::Assistant,
            Role::User,
            Role::Assistant,
        ]
    );
    assert_eq!(conversation.messages()[4].content, "answer 1");
}

#[test]
fn reply_without_choice_is_an_inference_error() {
    let turn = Conversation::new("prompt").ask("first".to_string());
    assert_eq!(turn.answer(Vec::new()), Err(Error::Inference(NO_REPLY.to_string())));
}

#[test]
fn first_choice_without_text_is_an_inference_error() {
    let turn = Conversation::new("prompt").ask("first".to_string());
    assert_eq!(
        turn.answer(vec![None, Some("later".to_string())]),
        Err(Error::Inference("the reply holds no message".to_string()))
    );
}
