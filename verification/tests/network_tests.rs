use http_node::network::{
    after_read, link_action, link_next, LinkAction, LinkStep, ReadDecision, READ_BUFFER_SIZE,
};

#[test]
fn read_decisions() {
    assert_eq!(after_read(None, READ_BUFFER_SIZE), ReadDecision::Stop);
    assert_eq!(after_read(Some(0), READ_BUFFER_SIZE), ReadDecision::Close);
    assert_eq!(after_read(Some(17), READ_BUFFER_SIZE), ReadDecision::Handle(17));
    assert_eq!(after_read(Some(1024), READ_BUFFER_SIZE), ReadDecision::Handle(1024));
    assert_eq!(after_read(Some(1025), READ_BUFFER_SIZE), ReadDecision::Stop);
}

fn walk(start: LinkStep, answers: &[bool]) -> Vec<LinkAction> {
    let mut s = start;
    let mut actions = vec![link_action(s)];
    for ok in answers {
        s = link_next(s, *ok);
        actions.push(link_action(s));
    }
    actions
}

#[test]
fn link_comes_up_from_a_stopped_controller() {
    assert_eq!(
        walk(LinkStep::CheckConnected, &[false, false, true, true, false, true, true]),
        vec![
            LinkAction::QueryConnected,
            LinkAction::QueryStarted,
            LinkAction::SetConfiguration,
            LinkAction::StartController,
            LinkAction::Connect,
            LinkAction::Sleep(1000),
            LinkAction::Connect,
            LinkAction::Finish,
        ]
    );
}

#[test]
fn link_waits_for_disconnection_first() {
    assert_eq!(
        walk(LinkStep::CheckConnected, &[true, true, true, true, true]),
        vec![
            LinkAction::QueryConnected,
            LinkAction::WaitForDisconnect,
            LinkAction::Sleep(5000),
            LinkAction::QueryStarted,
            LinkAction::Connect,
            LinkAction::Finish,
        ]
    );
}

#[test]
fn link_aborts_when_configuration_fails() {
    assert_eq!(link_next(LinkStep::Configure, false), LinkStep::Aborted);
    assert_eq!(link_next(LinkStep::Start, false), LinkStep::Aborted);
    assert_eq!(link_action(LinkStep::Aborted), LinkAction::Abort);
    assert_eq!(link_next(LinkStep::Connect, false), LinkStep::RetryDelay);
}

use http_node::network::{
    dhcp_action, dhcp_next, http_task_action, http_task_next, DhcpAction, DhcpStep,
    HttpTaskAction, HttpTaskEvent, HttpTaskState,
};

#[test]
fn http_task_serves_then_listens_again() {
    let cap = READ_BUFFER_SIZE;
    let mut s = HttpTaskState::Listening;
    assert_eq!(http_task_action(s), HttpTaskAction::Accept);
    s = http_task_next(s, HttpTaskEvent::Accepted(true), cap);
    assert_eq!(http_task_action(s), HttpTaskAction::Read);
    s = http_task_next(s, HttpTaskEvent::ReadDone(Some(20)), cap);
    assert_eq!(http_task_action(s), HttpTaskAction::Answer(20));
    s = http_task_next(s, HttpTaskEvent::Answered(false), cap);
    assert_eq!(s, HttpTaskState::Reading);
    s = http_task_next(s, HttpTaskEvent::ReadDone(Some(0)), cap);
    assert_eq!(http_task_action(s), HttpTaskAction::Close);
    s = http_task_next(s, HttpTaskEvent::Closed, cap);
    assert_eq!(s, HttpTaskState::Listening);
}

#[test]
fn http_task_read_error_and_overflow_go_back_to_listening() {
    let cap = 16;
    assert_eq!(http_task_next(HttpTaskState::Reading, HttpTaskEvent::ReadDone(None), cap), HttpTaskState::Listening);
    assert_eq!(http_task_next(HttpTaskState::Reading, HttpTaskEvent::ReadDone(Some(17)), cap), HttpTaskState::Listening);
}

#[test]
fn http_task_ends_on_accept_error() {
    let s = http_task_next(HttpTaskState::Listening, HttpTaskEvent::Accepted(false), 8);
    assert_eq!(s, HttpTaskState::Ended);
    assert_eq!(http_task_action(s), HttpTaskAction::Finish);
    assert_eq!(http_task_next(s, HttpTaskEvent::Accepted(true), 8), HttpTaskState::Ended);
    assert_eq!(http_task_next(HttpTaskState::Reading, HttpTaskEvent::Closed, 8), HttpTaskState::Reading);
}

#[test]
fn dhcp_polls_link_then_address() {
    let mut s = DhcpStep::CheckLink;
    let mut actions = vec![dhcp_action(s)];
    for yes in [false, true, true, false, true, true, true] {
        s = dhcp_next(s, yes);
        actions.push(dhcp_action(s));
    }
    assert_eq!(
        actions,
        vec![
            DhcpAction::QueryLink,
            DhcpAction::Sleep(2000),
            DhcpAction::QueryLink,
            DhcpAction::QueryAddress,
            DhcpAction::Sleep(1000),
            DhcpAction::QueryAddress,
            DhcpAction::Finish,
            DhcpAction::Finish,
        ]
    );
}
