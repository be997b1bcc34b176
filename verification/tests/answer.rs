use ultidesk::answer::{describe, AgentFailure, Answer, NO_AGENT, UNEXPECTED_REPLY};

#[test]
fn a_reply_of_the_expected_kind_is_the_value_and_says_nothing() {
    let a = Answer::from_reply(Some(vec![1, 2]));
    assert_eq!(a.value, Some(vec![1, 2]));
    assert_eq!(a.note, None);
}

#[test]
fn a_reply_of_another_kind_is_no_value_and_says_so() {
    let a: Answer<u8> = Answer::from_reply(None);
    assert_eq!(a.value, None);
    assert_eq!(a.note.as_deref(), Some("the agent answered with something unexpected"));
    assert_eq!(UNEXPECTED_REPLY, "the agent answered with something unexpected");
}

#[test]
fn a_missing_answer_carries_its_reason() {
    let a: Answer<String> = Answer::missing("no agent is running".to_string());
    assert!(a.value.is_none());
    assert_eq!(a.note, Some("no agent is running".to_string()));
}

#[test]
fn each_failure_is_described_by_its_next_step() {
    assert_eq!(describe(&AgentFailure::NoAgent), NO_AGENT);
    assert!(NO_AGENT.starts_with("no agent is running on this machine"));
    let refused = |code: &str| AgentFailure::Refused { code: code.to_string(), message: "m".to_string() };
    assert_eq!(describe(&refused("peer_address_unknown")), "m");
    assert_eq!(describe(&refused("peer_unreachable")), "the peer did not answer: m");
    assert_eq!(describe(&refused("not_permitted")), "the agent refused the connection: not_permitted: m");
    assert_eq!(describe(&AgentFailure::TimedOut), "the agent did not answer in time");
    assert_eq!(describe(&AgentFailure::Other("the agent went away mid-request".to_string())), "the agent went away mid-request");
}
