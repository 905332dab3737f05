use ssh_session::address::SocketAddress;
use ssh_session::client::Client;
use ssh_session::connect::{AuthMethod, AuthReply};
use ssh_session::error::Error;
use ssh_session::exec::{ChannelMsg, Execution};
use ssh_session::host_key::ServerCheckMethod;

fn open_session() -> Client<u32> {
    let resolved = vec![SocketAddress { ip: "10.10.10.2".to_string(), port: 22 }];
    Client::<u32>::connect(
        "10.10.10.2".to_string(),
        &resolved,
        "root",
        AuthMethod::Password("root".to_string()),
        ServerCheckMethod::NoCheck,
    )
    .unwrap()
    .completed(Some(Ok(true)), true)
    .unwrap()
    .answered(AuthReply::Accepted, 41)
    .unwrap()
}

fn execution(command: &str) -> Execution {
    let session = open_session();
    let (_, execution) = session.execute(command).unwrap();
    execution
}

fn data(bytes: &[u8]) -> ChannelMsg {
    ChannelMsg::Data { data: bytes.to_vec() }
}

#[test]
fn execute_echo_hello() {
    let mut run = execution("echo hello");
    assert_eq!(run.command(), "echo hello");
    assert!(run.want_reply());
    run.receive(&data(b"hello\n"));
    run.receive(&ChannelMsg::ExitStatus { exit_status: 0 });
    run.receive(&ChannelMsg::Eof);
    run.receive(&ChannelMsg::Close);
    let done = run.finish().unwrap();
    assert_eq!(done.stdout, "hello\n");
    assert_eq!(done.stderr, "");
    assert_eq!(done.exit_status, 0);
}

#[test]
fn execute_exit_7() {
    let mut run = execution("exit 7");
    run.receive_all(&vec![
        ChannelMsg::ExitStatus { exit_status: 7 },
        ChannelMsg::Eof,
        ChannelMsg::Close,
    ]);
    let done = run.finish().unwrap();
    assert_eq!(done.exit_status, 7);
    assert_eq!(done.stdout, "");
    assert_eq!(done.stderr, "");
}

#[test]
fn output_is_joined_in_order_of_arrival() {
    let mut run = execution("printf");
    run.receive_all(&vec![data(b"one "), data(b""), data(b"two "), ChannelMsg::Other, data(b"three")]);
    run.receive(&ChannelMsg::ExitStatus { exit_status: 0 });
    assert_eq!(run.finish().unwrap().stdout, "one two three");
}

#[test]
fn data_after_the_exit_status_is_still_captured() {
    let mut run = execution("late");
    run.receive_all(&vec![
        ChannelMsg::Eof,
        ChannelMsg::ExitStatus { exit_status: 3 },
        data(b"late output"),
    ]);
    let done = run.finish().unwrap();
    assert_eq!(done.stdout, "late output");
    assert_eq!(done.exit_status, 3);
}

#[test]
fn the_last_exit_status_counts() {
    let mut run = execution("twice");
    run.receive(&ChannelMsg::ExitStatus { exit_status: 1 });
    run.receive(&data(b"x"));
    run.receive(&ChannelMsg::ExitStatus { exit_status: 4_294_967_295 });
    assert_eq!(run.finish().unwrap().exit_status, 4_294_967_295);
}

#[test]
fn standard_error_is_not_captured() {
    let mut run = execution("ls /nonexistent");
    run.receive_all(&vec![
        ChannelMsg::ExtendedData { data: b"ls: cannot access".to_vec(), ext: 1 },
        ChannelMsg::ExtendedData { data: b"other stream".to_vec(), ext: 2 },
        ChannelMsg::ExitStatus { exit_status: 2 },
    ]);
    let done = run.finish().unwrap();
    assert_eq!(done.stdout, "");
    assert_eq!(done.stderr, "");
    assert_eq!(done.exit_status, 2);
}

#[test]
fn missing_exit_status_is_an_error() {
    let mut run = execution("killed");
    run.receive_all(&vec![data(b"partial"), ChannelMsg::Eof, ChannelMsg::Close]);
    assert_eq!(run.finish(), Err(Error::NoExitStatus));
}

#[test]
fn no_message_at_all_is_no_exit_status() {
    assert_eq!(execution("true").finish(), Err(Error::NoExitStatus));
}

#[test]
fn output_that_is_not_utf8_is_an_error() {
    let mut run = execution("cat /bin/true");
    run.receive_all(&vec![data(&[0x66, 0x6f, 0xff, 0x6f]), ChannelMsg::ExitStatus { exit_status: 0 }]);
    assert_eq!(run.finish(), Err(Error::OutputNotText));
}

#[test]
fn output_that_is_not_utf8_comes_before_a_missing_exit_status() {
    let mut run = execution("cat /bin/true");
    run.receive(&data(&[0xc0, 0x80]));
    assert_eq!(run.finish(), Err(Error::OutputNotText));
}

#[test]
fn a_character_split_over_two_messages_is_decoded() {
    let mut run = execution("echo");
    run.receive(&data(&[0x67, 0x72, 0xc3]));
    run.receive(&data(&[0xbc, 0xc3, 0x9f, 0x65, 0x0a]));
    run.receive(&ChannelMsg::ExitStatus { exit_status: 0 });
    assert_eq!(run.finish().unwrap().stdout, "gr\u{fc}\u{df}e\n");
}

#[test]
fn a_truncated_character_is_not_text() {
    let mut run = execution("echo");
    run.receive(&data(&[0x67, 0x72, 0xc3]));
    run.receive(&ChannelMsg::ExitStatus { exit_status: 0 });
    assert_eq!(run.finish(), Err(Error::OutputNotText));
}

#[test]
fn one_by_one_and_in_runs_give_the_same_result() {
    let msgs = vec![
        data(b"a"),
        ChannelMsg::ExitStatus { exit_status: 5 },
        ChannelMsg::ExtendedData { data: b"e".to_vec(), ext: 1 },
        data(b"bc"),
        ChannelMsg::Eof,
    ];
    let mut one_by_one = execution("x");
    for msg in &msgs {
        one_by_one.receive(msg);
    }
    let mut in_one_run = execution("x");
    in_one_run.receive_all(&msgs);
    let mut in_two_runs = execution("x");
    in_two_runs.receive_all(&msgs[..2].to_vec());
    in_two_runs.receive_all(&msgs[2..].to_vec());
    let expected = one_by_one.finish().unwrap();
    assert_eq!(expected.stdout, "abc");
    assert_eq!(expected.exit_status, 5);
    assert_eq!(in_one_run.finish(), Ok(expected.clone()));
    assert_eq!(in_two_runs.finish(), Ok(expected));
}
