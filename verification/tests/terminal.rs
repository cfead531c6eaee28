use rekcod::terminal::{
    get_query_params, pick_query_params, resize_docker_cmd, ExecAction, ExecEvent, ExecPhase,
    ExecSession, ResizeInfo,
};

fn show(actions: &[ExecAction]) -> Vec<String> {
    actions
        .iter()
        .map(|a| match a {
            ExecAction::Emit { event, data } => format!("emit {}={}", event, data),
            ExecAction::ResolveNode { name } => format!("resolve {}", name),
            ExecAction::StartExec { container } => format!("start {}", container),
            ExecAction::Write { data } => format!("write {:?}", data),
            ExecAction::Flush => "flush".to_string(),
            ExecAction::ResizeExec { exec_id, height, width } => {
                format!("resize {} {}x{}", exec_id, height, width)
            }
            ExecAction::CancelReader => "cancel".to_string(),
            ExecAction::Close => "close".to_string(),
        })
        .collect()
}

fn attached() -> ExecSession {
    let mut s = ExecSession::new();
    let params = get_query_params("/api/node/docker/container/exec?node_name=n1&id=c1");
    assert_eq!(show(&s.step(ExecEvent::Connected(params))), vec!["resolve n1"]);
    assert_eq!(show(&s.step(ExecEvent::NodeResolved(Ok(true)))), vec!["start c1"]);
    assert_eq!(
        show(&s.step(ExecEvent::ExecStarted(Ok(("e1".to_string(), true))))),
        vec!["emit connected=ok"]
    );
    assert_eq!(s.phase, ExecPhase::Attached);
    s
}

#[test]
fn terminal_session_from_connect_to_disconnect() {
    let mut s = attached();
    assert_eq!(
        show(&s.step(ExecEvent::Data("ls\n".to_string()))),
        vec!["write \"ls\\n\"", "flush"]
    );
    assert_eq!(
        show(&s.step(ExecEvent::StdOut(b"bin\netc\n".to_vec()))),
        vec!["emit out=bin\netc\n"]
    );
    assert_eq!(
        show(&s.step(ExecEvent::StdErr(b"oops".to_vec()))),
        vec!["emit out=oops"]
    );
    assert_eq!(show(&s.step(ExecEvent::OtherOutput)), Vec::<String>::new());
    assert_eq!(
        show(&s.step(ExecEvent::Disconnect)),
        vec!["write \"exit\\n\"", "flush", "cancel", "emit disconnected=ok"]
    );
    assert_eq!(s.phase, ExecPhase::Closed);
    assert_eq!(show(&s.step(ExecEvent::Data("x".to_string()))), Vec::<String>::new());
    assert_eq!(show(&s.step(ExecEvent::Disconnect)), Vec::<String>::new());
}

#[test]
fn output_that_is_not_text_is_replaced() {
    let mut s = attached();
    assert_eq!(
        show(&s.step(ExecEvent::StdOut(vec![0x61, 0xff, 0x62]))),
        vec!["emit out=a\u{fffd}b"]
    );
}

#[test]
fn resize_sets_rows_and_columns() {
    let mut s = attached();
    assert_eq!(
        show(&s.step(ExecEvent::Resize(ResizeInfo { height: 40, width: 120 }))),
        vec!["resize e1 40x120"]
    );
    assert_eq!(resize_docker_cmd(&ResizeInfo { height: 65536 + 7, width: 65535 }), (7, 65535));
}

#[test]
fn missing_params_fail_the_session() {
    let mut s = ExecSession::new();
    let params = get_query_params("/exec?node_name=n1");
    assert_eq!(params, Err("params error".to_string()));
    assert_eq!(
        show(&s.step(ExecEvent::Connected(params))),
        vec!["emit err=params error", "close"]
    );
    assert_eq!(s.phase, ExecPhase::Closed);
}

#[test]
fn unknown_node_fails_the_session() {
    let mut s = ExecSession::new();
    s.step(ExecEvent::Connected(Ok(("n9".to_string(), "c1".to_string()))));
    assert_eq!(
        show(&s.step(ExecEvent::NodeResolved(Ok(false)))),
        vec!["emit err=node not found", "close"]
    );
    let mut s = ExecSession::new();
    s.step(ExecEvent::Connected(Ok(("n9".to_string(), "c1".to_string()))));
    assert_eq!(
        show(&s.step(ExecEvent::NodeResolved(Err("db down".to_string())))),
        vec!["emit err=db down", "close"]
    );
}

#[test]
fn failed_exec_fails_the_session() {
    let mut s = ExecSession::new();
    s.step(ExecEvent::Connected(Ok(("n1".to_string(), "c1".to_string()))));
    s.step(ExecEvent::NodeResolved(Ok(true)));
    assert_eq!(
        show(&s.step(ExecEvent::ExecStarted(Err("no such container".to_string())))),
        vec!["emit err=no such container", "close"]
    );
    let mut s = ExecSession::new();
    s.step(ExecEvent::Connected(Ok(("n1".to_string(), "c1".to_string()))));
    s.step(ExecEvent::NodeResolved(Ok(true)));
    assert_eq!(
        show(&s.step(ExecEvent::ExecStarted(Ok(("e1".to_string(), false))))),
        vec!["emit connected=ok", "emit err=can not connect to docker", "close"]
    );
    assert_eq!(s.phase, ExecPhase::Closed);
}

#[test]
fn events_out_of_phase_do_nothing() {
    let mut s = ExecSession::new();
    assert_eq!(show(&s.step(ExecEvent::Data("x".to_string()))), Vec::<String>::new());
    assert_eq!(s.phase, ExecPhase::Opened);
    assert_eq!(show(&s.step(ExecEvent::Disconnect)), Vec::<String>::new());
    assert_eq!(s.phase, ExecPhase::Closed);
}

#[test]
fn query_params_are_decoded_and_last_wins() {
    assert_eq!(
        get_query_params("/x?node_name=a%20b&id=c%2F1&node_name=n2"),
        Ok(("n2".to_string(), "c/1".to_string()))
    );
    assert_eq!(get_query_params(""), Err("params error".to_string()));
    let pairs = vec![
        ("id".to_string(), "1".to_string()),
        ("node_name".to_string(), "n".to_string()),
        ("id".to_string(), "2".to_string()),
    ];
    assert_eq!(pick_query_params(&pairs), Ok(("n".to_string(), "2".to_string())));
    assert_eq!(pick_query_params(&vec![]), Err("params error".to_string()));
}
