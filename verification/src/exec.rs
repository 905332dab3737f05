//! Remote command execution: folding the messages of an exec channel into the
//! command's output and exit status.
//!
//! An [`Execution`] is handed out by an open session. The caller opens the
//! exec channel, sends the request the execution names, feeds it every
//! message the channel delivers, in order, until the channel ends, and then
//! asks for the result.

use vstd::prelude::*;
use vstd::utf8::{decode_utf8, encode_utf8, encode_utf8_decode_utf8, valid_utf8};
use crate::error::Error;

verus! {

/// A message that arrives on a channel.
#[derive(Clone, Debug, PartialEq, Eq)]
pub enum ChannelMsg {
    /// Bytes of the command's standard output.
    Data { data: Vec<u8> },
    /// Bytes of another stream of the command; `ext` 1 is standard error.
    ExtendedData { data: Vec<u8>, ext: u32 },
    /// The command ended with this exit status.
    ExitStatus { exit_status: u32 },
    /// The remote side will send no more data.
    Eof,
    /// The remote side closed the channel.
    Close,
    /// Any other kind of message.
    Other,
}

/// The mathematical value of a [`ChannelMsg`].
pub enum ChannelMsgView {
    Data { data: Seq<u8> },
    ExtendedData { data: Seq<u8>, ext: u32 },
    ExitStatus { exit_status: u32 },
    Eof,
    Close,
    Other,
}

impl View for ChannelMsg {
    type V = ChannelMsgView;

    open spec fn view(&self) -> ChannelMsgView {
        match self {
            ChannelMsg::Data { data } => ChannelMsgView::Data { data: data@ },
            ChannelMsg::ExtendedData { data, ext } => ChannelMsgView::ExtendedData {
                data: data@,
                ext: *ext,
            },
            ChannelMsg::ExitStatus { exit_status } => ChannelMsgView::ExitStatus {
                exit_status: *exit_status,
            },
            ChannelMsg::Eof => ChannelMsgView::Eof,
            ChannelMsg::Close => ChannelMsgView::Close,
            ChannelMsg::Other => ChannelMsgView::Other,
        }
    }
}

/// The values of a run of messages, in the order of arrival.
pub open spec fn messages(msgs: Seq<ChannelMsg>) -> Seq<ChannelMsgView> {
    Seq::new(msgs.len(), |i: int| msgs[i]@)
}

/// The bytes a message adds to the captured output: the payload of a data
/// message, and nothing for every other kind. Extended data, standard error
/// included, is not captured.
pub open spec fn payload(msg: ChannelMsgView) -> Seq<u8> {
    match msg {
        ChannelMsgView::Data { data } => data,
        _ => Seq::empty(),
    }
}

/// The captured output of a run of messages: the payloads of its data
/// messages, joined in the order of arrival.
pub open spec fn captured_output(msgs: Seq<ChannelMsgView>) -> Seq<u8>
    decreases msgs.len(),
{
    if msgs.len() == 0 {
        Seq::empty()
    } else {
        captured_output(msgs.drop_last()) + payload(msgs.last())
    }
}

/// The exit status that a run of messages reports: that of its last
/// exit-status message, if it has one.
pub open spec fn reported_exit(msgs: Seq<ChannelMsgView>) -> Option<u32>
    decreases msgs.len(),
{
    if msgs.len() == 0 {
        None
    } else {
        match msgs.last() {
            ChannelMsgView::ExitStatus { exit_status } => Some(exit_status),
            _ => reported_exit(msgs.drop_last()),
        }
    }
}

/// The later of two exit statuses, where either may be missing.
pub open spec fn later_exit(earlier: Option<u32>, later: Option<u32>) -> Option<u32> {
    match later {
        Some(_) => later,
        None => earlier,
    }
}

/// What a command left behind.
#[derive(Clone, Debug, PartialEq, Eq)]
pub struct CommandExecutedResult {
    /// The command's standard output, decoded as UTF-8.
    pub stdout: String,
    /// Always empty: standard error is not captured.
    pub stderr: String,
    /// The command's exit status.
    pub exit_status: u32,
}

/// The mathematical value of a [`CommandExecutedResult`].
pub struct CommandExecutedResultView {
    pub stdout: Seq<char>,
    pub stderr: Seq<char>,
    pub exit_status: u32,
}

impl View for CommandExecutedResult {
    type V = CommandExecutedResultView;

    open spec fn view(&self) -> CommandExecutedResultView {
        CommandExecutedResultView {
            stdout: self.stdout@,
            stderr: self.stderr@,
            exit_status: self.exit_status,
        }
    }
}

/// The value of a result that holds a [`CommandExecutedResult`].
pub open spec fn outcome_view(r: Result<CommandExecutedResult, Error>) -> Result<
    CommandExecutedResultView,
    Error,
> {
    match r {
        Ok(done) => Ok(done@),
        Err(e) => Err(e),
    }
}

/// The result of a command from what its channel delivered.
///
/// Output that is not well-formed UTF-8 is `OutputNotText`, whether or not an
/// exit status came. Otherwise a missing exit status is `NoExitStatus`: it is
/// never taken for success. Otherwise the result holds the decoded output, an
/// empty standard error and the exit status.
pub open spec fn command_result(stdout: Seq<u8>, exit_status: Option<u32>) -> Result<
    CommandExecutedResultView,
    Error,
> {
    if !valid_utf8(stdout) {
        Err(Error::OutputNotText)
    } else {
        match exit_status {
            None => Err(Error::NoExitStatus),
            Some(code) => Ok(
                CommandExecutedResultView {
                    stdout: decode_utf8(stdout),
                    stderr: Seq::empty(),
                    exit_status: code,
                },
            ),
        }
    }
}

/// The state of one remote command between its request and its result.
#[derive(Debug)]
pub struct Execution {
    command: String,
    stdout: Vec<u8>,
    exit_status: Option<u32>,
}

/// The mathematical value of an [`Execution`].
pub struct ExecutionView {
    /// The command line to run on the remote host.
    pub command: Seq<char>,
    /// The output captured so far.
    pub stdout: Seq<u8>,
    /// The exit status reported so far.
    pub exit_status: Option<u32>,
}

impl ExecutionView {
    /// The execution of `command` before any message has arrived.
    pub open spec fn start(command: Seq<char>) -> ExecutionView {
        ExecutionView { command, stdout: Seq::empty(), exit_status: None }
    }

    /// The execution after one more message has arrived: a data message
    /// extends the captured output, an exit-status message replaces the exit
    /// status, and every other message changes nothing.
    pub open spec fn received(self, msg: ChannelMsgView) -> ExecutionView {
        ExecutionView {
            command: self.command,
            stdout: self.stdout + payload(msg),
            exit_status: match msg {
                ChannelMsgView::ExitStatus { exit_status } => Some(exit_status),
                _ => self.exit_status,
            },
        }
    }

    /// The execution after the messages `msgs` have arrived, in that order.
    pub open spec fn after(self, msgs: Seq<ChannelMsgView>) -> ExecutionView {
        ExecutionView {
            command: self.command,
            stdout: self.stdout + captured_output(msgs),
            exit_status: later_exit(self.exit_status, reported_exit(msgs)),
        }
    }
}

impl View for Execution {
    type V = ExecutionView;

    closed spec fn view(&self) -> ExecutionView {
        ExecutionView {
            command: self.command@,
            stdout: self.stdout@,
            exit_status: self.exit_status,
        }
    }
}

/// `String::from_utf8` of std: the bytes as text when they are well-formed
/// UTF-8, in which case the text's encoding is those bytes, and nothing when
/// they are not.
#[verifier::external_body]
fn text_from_utf8(bytes: Vec<u8>) -> (text: Option<String>)
    ensures
        text is Some <==> valid_utf8(bytes@),
        text matches Some(s) ==> encode_utf8(s@) == bytes@,
{
    String::from_utf8(bytes).ok()
}

impl Execution {
    /// The execution of `command` before any message has arrived.
    pub(crate) fn new(command: String) -> (execution: Execution)
        ensures
            execution@ == ExecutionView::start(command@),
    {
        Execution { command, stdout: Vec::new(), exit_status: None }
    }

    /// The command line to request on the exec channel.
    pub fn command(&self) -> (command: &str)
        ensures
            command@ == self@.command,
    {
        self.command.as_str()
    }

    /// Whether the exec request asks the server to confirm it: always.
    pub fn want_reply(&self) -> (want_reply: bool)
        ensures
            want_reply,
    {
        true
    }

    /// Takes in one message from the channel.
    pub fn receive(&mut self, msg: &ChannelMsg)
        ensures
            final(self)@ == old(self)@.received(msg@),
            final(self)@ == old(self)@.after(seq![msg@]),
    {
        proof {
            lemma_after_one(old(self)@, msg@);
        }
        match msg {
            ChannelMsg::Data { data } => {
                let ghost before = self.stdout@;
                let mut i: usize = 0;
                while i < data.len()
                    invariant
                        i <= data.len(),
                        self.stdout@ == before + data@.take(i as int),
                        self.command == old(self).command,
                        self.exit_status == old(self).exit_status,
                    decreases data.len() - i,
                {
                    self.stdout.push(data[i]);
                    assert(data@.take(i + 1) =~= data@.take(i as int).push(data@[i as int]));
                    i += 1;
                }
                assert(data@.take(i as int) =~= data@);
            },
            ChannelMsg::ExitStatus { exit_status } => {
                self.exit_status = Some(*exit_status);
                assert(self.stdout@ =~= old(self).stdout@ + Seq::<u8>::empty());
            },
            _ => {
                assert(self.stdout@ =~= old(self).stdout@ + Seq::<u8>::empty());
            },
        }
    }

    /// Takes in a run of messages, in the order in which the channel
    /// delivered them.
    pub fn receive_all(&mut self, msgs: &Vec<ChannelMsg>)
        ensures
            final(self)@ == old(self)@.after(messages(msgs@)),
    {
        let ghost all = messages(msgs@);
        let mut i: usize = 0;
        proof {
            assert(all.take(0) =~= Seq::<ChannelMsgView>::empty());
            assert(self@.stdout =~= old(self)@.stdout + captured_output(all.take(0)));
        }
        while i < msgs.len()
            invariant
                i <= msgs.len(),
                all == messages(msgs@),
                self@ == old(self)@.after(all.take(i as int)),
            decreases msgs.len() - i,
        {
            let ghost seen = all.take(i as int);
            self.receive(&msgs[i]);
            proof {
                lemma_after_appends(old(self)@, seen, seq![all[i as int]]);
                assert(seen + seq![all[i as int]] =~= all.take(i + 1));
            }
            i += 1;
        }
        assert(all.take(i as int) =~= all);
    }

    /// Ends the execution once the channel has delivered its last message.
    pub fn finish(self) -> (r: Result<CommandExecutedResult, Error>)
        ensures
            outcome_view(r) == command_result(self@.stdout, self@.exit_status),
    {
        match text_from_utf8(self.stdout) {
            None => Err(Error::OutputNotText),
            Some(stdout) => match self.exit_status {
                None => Err(Error::NoExitStatus),
                Some(exit_status) => {
                    proof {
                        encode_utf8_decode_utf8(stdout@);
                    }
                    Ok(CommandExecutedResult { stdout, stderr: String::new(), exit_status })
                },
            },
        }
    }
}

/// Taking in one message is taking in the run that holds just that message.
pub proof fn lemma_after_one(execution: ExecutionView, msg: ChannelMsgView)
    ensures
        execution.after(seq![msg]) == execution.received(msg),
{
    let one = seq![msg];
    assert(one.drop_last() =~= Seq::<ChannelMsgView>::empty());
    assert(captured_output(one) =~= payload(msg)) by {
        reveal_with_fuel(captured_output, 2);
    }
    assert(reported_exit(one) == match msg {
        ChannelMsgView::ExitStatus { exit_status } => Some(exit_status),
        _ => None::<u32>,
    }) by {
        reveal_with_fuel(reported_exit, 2);
    }
}

/// The captured output and the reported exit status of two runs of messages
/// joined are those of the first run followed by those of the second.
pub proof fn lemma_runs_join(first: Seq<ChannelMsgView>, second: Seq<ChannelMsgView>)
    ensures
        captured_output(first + second) == captured_output(first) + captured_output(second),
        reported_exit(first + second) == later_exit(reported_exit(first), reported_exit(second)),
    decreases second.len(),
{
    if second.len() == 0 {
        assert(first + second =~= first);
        assert(captured_output(first) + captured_output(second) =~= captured_output(first));
    } else {
        let shorter = second.drop_last();
        lemma_runs_join(first, shorter);
        assert((first + second).drop_last() =~= first + shorter);
        assert((first + second).last() == second.last());
        assert(captured_output(first + second) =~= captured_output(first) + captured_output(
            second,
        ));
    }
}

/// Messages may be taken in one at a time or in runs of any length: what an
/// execution holds after `first` and then `second` is what it holds after the
/// two joined.
pub proof fn lemma_after_appends(
    execution: ExecutionView,
    first: Seq<ChannelMsgView>,
    second: Seq<ChannelMsgView>,
)
    ensures
        execution.after(first).after(second) == execution.after(first + second),
{
    lemma_runs_join(first, second);
    assert(execution.after(first).after(second).stdout =~= execution.after(first + second).stdout);
}

} // verus!
