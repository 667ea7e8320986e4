//! Tests of the conversation history and the completion-choice selection.
use reactagent::agent::base::{Conversation, Role, choose_reply, finish_step};
use reactagent::error::AgentError;

#[test]
fn conversation_opens_with_system_prompt_when_given() {
    let conversation = Conversation::new(Some("be terse".to_owned()));
    assert_eq!(conversation.len(), 1);
    let first = conversation.message_at(0);
    assert!(matches!(first.role, Role::System));
    assert_eq!(first.content, "be terse");
}

#[test]
fn conversation_keeps_transcript_order() {
    let mut conversation = Conversation::new(Some("sys".to_owned()));
    conversation.append_user("question".to_owned());
    conversation.append_assistant("reply".to_owned());
    conversation.append_user("follow-up".to_owned());
    assert_eq!(conversation.len(), 4);
    assert!(matches!(conversation.message_at(0).role, Role::System));
    assert!(matches!(conversation.message_at(1).role, Role::User));
    assert!(matches!(conversation.message_at(2).role, Role::Assistant));
    assert!(matches!(conversation.message_at(3).role, Role::User));
    assert_eq!(conversation.message_at(3).content, "follow-up");
}

#[test]
fn conversation_without_system_prompt_starts_empty() {
    let conversation = Conversation::new(None);
    assert_eq!(conversation.len(), 0);
}

#[test]
fn choose_reply_fails_on_empty_choices() {
    match choose_reply(vec![]) {
        Err(AgentError::Generic(text)) => {
            assert_eq!(text, "No choices returned from OpenAI API");
        }
        other => panic!("expected the empty-choices failure, got {:?}", other),
    }
}

#[test]
fn choose_reply_fails_on_missing_content() {
    match choose_reply(vec![None, Some("ignored".to_owned())]) {
        Err(AgentError::Generic(text)) => {
            assert_eq!(text, "No content in the response message");
        }
        other => panic!("expected the empty-content failure, got {:?}", other),
    }
}

#[test]
fn choose_reply_takes_first_choice() {
    let reply = choose_reply(vec![Some("first".to_owned()), Some("second".to_owned())]);
    assert_eq!(reply, Ok("first".to_owned()));
}

#[test]
fn finish_step_keeps_user_message_on_failure() {
    let mut conversation = Conversation::new(None);
    conversation.append_user("question".to_owned());
    let transport = AgentError::Transport("connection reset".to_owned());
    let outcome = finish_step(&mut conversation, Err(transport));
    assert_eq!(outcome, Err(AgentError::Transport("connection reset".to_owned())));
    // The failed step leaves the appended user message in place: the retry
    // reuses the same transcript.
    assert_eq!(conversation.len(), 1);
    assert!(matches!(conversation.message_at(0).role, Role::User));
}

#[test]
fn finish_step_appends_assistant_reply_on_success() {
    let mut conversation = Conversation::new(None);
    conversation.append_user("question".to_owned());
    let outcome = finish_step(&mut conversation, Ok(vec![Some("the reply".to_owned())]));
    assert_eq!(outcome, Ok("the reply".to_owned()));
    assert_eq!(conversation.len(), 2);
    assert!(matches!(conversation.message_at(1).role, Role::Assistant));
    assert_eq!(conversation.message_at(1).content, "the reply");
}
