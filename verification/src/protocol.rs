//! The wire protocol of the control socket: one message per connection, the
//! whole byte stream of the connection being the message.

use vstd::prelude::*;
use vstd::string::StringSliceAdditionalSpecFns;

verus! {

/// ASCII code of `c`.
pub const LOWER_C: u8 = 0x63;

/// ASCII code of `d`.
pub const LOWER_D: u8 = 0x64;

/// ASCII code of `g`.
pub const LOWER_G: u8 = 0x67;

/// ASCII code of `m`.
pub const LOWER_M: u8 = 0x6d;

/// ASCII code of `o`.
pub const LOWER_O: u8 = 0x6f;

/// ASCII code of `p`.
pub const LOWER_P: u8 = 0x70;

/// ASCII code of `s`.
pub const LOWER_S: u8 = 0x73;

/// ASCII code of `t`.
pub const LOWER_T: u8 = 0x74;

/// ASCII code of `:`.
pub const COLON: u8 = 0x3a;

/// The bytes of `cmd:stop`, the one message that shuts the instance down.
pub open spec fn stop_word() -> Seq<u8> {
    seq![LOWER_C, LOWER_M, LOWER_D, COLON, LOWER_S, LOWER_T, LOWER_O, LOWER_P]
}

/// The bytes of `msg:`, the marker that clients put in front of a payload.
pub open spec fn marker() -> Seq<u8> {
    seq![LOWER_M, LOWER_S, LOWER_G, COLON]
}

/// Whether `s` begins with the marker.
pub open spec fn starts_with_marker(s: Seq<u8>) -> bool {
    s.len() >= 4 && s[0] == LOWER_M && s[1] == LOWER_S && s[2] == LOWER_G && s[3] == COLON
}

/// `s` with every occurrence of the marker taken out, found in one pass from
/// the left: what the removal leaves behind is not searched again.
pub open spec fn stripped(s: Seq<u8>) -> Seq<u8>
    decreases s.len(),
{
    if s.len() == 0 {
        s
    } else if starts_with_marker(s) {
        stripped(s.skip(4))
    } else {
        seq![s[0]] + stripped(s.skip(1))
    }
}

/// Removes the marker wherever it stands in `message`.
pub fn strip_marker(message: &[u8]) -> (payload: Vec<u8>)
    ensures
        payload@ == stripped(message@),
{
    let n: usize = message.len();
    let mut payload: Vec<u8> = Vec::new();
    let mut i: usize = 0;
    assert(message@.skip(0) == message@);
    while i < n
        invariant
            n == message@.len(),
            i <= n,
            stripped(message@) == payload@ + stripped(message@.skip(i as int)),
        decreases n - i,
    {
        let ghost rest = message@.skip(i as int);
        if n - i >= 4 && message[i] == LOWER_M && message[i + 1] == LOWER_S && message[i + 2] == LOWER_G
            && message[i + 3] == COLON {
            assert(starts_with_marker(rest));
            assert(rest.skip(4) == message@.skip(i + 4));
            i = i + 4;
        } else {
            assert(!starts_with_marker(rest));
            assert(rest.skip(1) == message@.skip(i + 1));
            assert(payload@.push(message@[i as int]) + stripped(rest.skip(1)) == payload@ + (
            seq![rest[0]] + stripped(rest.skip(1))));
            payload.push(message[i]);
            i = i + 1;
        }
    }
    assert(message@.skip(n as int) == Seq::<u8>::empty());
    payload
}

/// What a message asks of the instance.
#[derive(Debug, PartialEq, Eq)]
pub enum Command {
    /// Delete the instance's files and end its process.
    Stop,
    /// Replace the content of the state file with the payload.
    Write(Vec<u8>),
}

/// A `Command` with its payload as a sequence of bytes.
pub enum CommandView {
    Stop,
    Write(Seq<u8>),
}

impl View for Command {
    type V = CommandView;

    open spec fn view(&self) -> CommandView {
        match self {
            Command::Stop => CommandView::Stop,
            Command::Write(payload) => CommandView::Write(payload@),
        }
    }
}

/// The command that a message stands for. Only the stop word itself stops
/// the instance; every other message is a write of what stripping leaves.
pub open spec fn decoded(message: Seq<u8>) -> CommandView {
    if message =~= stop_word() {
        CommandView::Stop
    } else {
        CommandView::Write(stripped(message))
    }
}

/// Whether `message` is the stop word, byte for byte.
pub fn is_stop(message: &[u8]) -> (stop: bool)
    ensures
        stop <==> message@ == stop_word(),
{
    let stop = message.len() == 8 && message[0] == LOWER_C && message[1] == LOWER_M && message[2]
        == LOWER_D && message[3] == COLON && message[4] == LOWER_S && message[5] == LOWER_T
        && message[6] == LOWER_O && message[7] == LOWER_P;
    proof {
        let word = stop_word();
        assert(word.len() == 8 && word[0] == LOWER_C && word[1] == LOWER_M && word[2] == LOWER_D
            && word[3] == COLON && word[4] == LOWER_S && word[5] == LOWER_T && word[6] == LOWER_O
            && word[7] == LOWER_P);
        if stop {
            assert(message@ =~= word);
        }
    }
    stop
}

/// Decodes the byte stream of one connection. Every stream is a command:
/// decoding does not fail.
pub fn decode(message: &[u8]) -> (command: Command)
    ensures
        command@ == decoded(message@),
        command is Stop <==> message@ == stop_word(),
{
    if is_stop(message) {
        Command::Stop
    } else {
        Command::Write(strip_marker(message))
    }
}

/// The message by which a client stops the instance.
pub fn stop_message() -> (message: Vec<u8>)
    ensures
        message@ == stop_word(),
{
    let mut message: Vec<u8> = Vec::new();
    message.push(LOWER_C);
    message.push(LOWER_M);
    message.push(LOWER_D);
    message.push(COLON);
    message.push(LOWER_S);
    message.push(LOWER_T);
    message.push(LOWER_O);
    message.push(LOWER_P);
    message
}

/// The message by which a client writes `payload`: the marker, then the
/// payload.
pub fn write_message(payload: &[u8]) -> (message: Vec<u8>)
    ensures
        message@ == marker() + payload@,
{
    let mut message: Vec<u8> = Vec::new();
    message.push(LOWER_M);
    message.push(LOWER_S);
    message.push(LOWER_G);
    message.push(COLON);
    let n: usize = payload.len();
    let mut i: usize = 0;
    while i < n
        invariant
            n == payload@.len(),
            i <= n,
            message@ == marker() + payload@.take(i as int),
        decreases n - i,
    {
        message.push(payload[i]);
        i = i + 1;
    }
    assert(payload@.take(n as int) == payload@);
    message
}

/// Whether the marker stands somewhere in `s`.
pub open spec fn holds_marker(s: Seq<u8>) -> bool {
    exists|i: int| 0 <= i <= s.len() && starts_with_marker(#[trigger] s.skip(i))
}

/// Stripping never lengthens a message.
pub proof fn lemma_stripped_no_longer(s: Seq<u8>)
    ensures
        stripped(s).len() <= s.len(),
    decreases s.len(),
{
    if s.len() == 0 {
    } else if starts_with_marker(s) {
        lemma_stripped_no_longer(s.skip(4));
    } else {
        lemma_stripped_no_longer(s.skip(1));
    }
}

/// A message in which the marker stands nowhere is its own payload.
pub proof fn lemma_stripped_without_marker(s: Seq<u8>)
    requires
        !holds_marker(s),
    ensures
        stripped(s) == s,
    decreases s.len(),
{
    if s.len() > 0 {
        assert(s.skip(0) == s);
        assert(!starts_with_marker(s));
        let rest = s.skip(1);
        assert forall|i: int| 0 <= i <= rest.len() implies !starts_with_marker(
            #[trigger] rest.skip(i),
        ) by {
            assert(rest.skip(i) == s.skip(i + 1));
        }
        lemma_stripped_without_marker(rest);
        assert(seq![s[0]] + rest == s);
    }
}

/// The marker is taken out wherever it stands, not only at the front:
/// whatever is before it and whatever is behind it are stripped apart and
/// joined.
pub proof fn lemma_stripped_around_marker(before: Seq<u8>, after: Seq<u8>)
    ensures
        stripped(before + marker() + after) == stripped(before) + stripped(after),
    decreases before.len(),
{
    let whole = before + marker() + after;
    if before.len() == 0 {
        assert(starts_with_marker(whole));
        assert(whole.skip(4) == after);
        assert(stripped(before) + stripped(after) == stripped(after));
    } else if starts_with_marker(before) {
        assert(starts_with_marker(whole));
        assert(whole.skip(4) == before.skip(4) + marker() + after);
        lemma_stripped_around_marker(before.skip(4), after);
    } else {
        assert(!starts_with_marker(whole)) by {
            if before.len() >= 4 {
                assert(whole[0] == before[0] && whole[1] == before[1] && whole[2] == before[2]
                    && whole[3] == before[3]);
            } else if before.len() == 3 {
                assert(whole[3] == marker()[0]);
            } else if before.len() == 2 {
                assert(whole[2] == marker()[0]);
            } else {
                assert(whole[1] == marker()[0]);
            }
        }
        assert(whole.skip(1) == before.skip(1) + marker() + after);
        lemma_stripped_around_marker(before.skip(1), after);
        assert(whole[0] == before[0]);
        assert(seq![before[0]] + (stripped(before.skip(1)) + stripped(after)) == (seq![before[0]]
            + stripped(before.skip(1))) + stripped(after));
    }
}

/// What a client sends to stop the instance is decoded as a stop, and what
/// it sends to write a payload is decoded as a write of the stripped
/// payload: of the payload itself where the marker stands nowhere in it.
pub proof fn lemma_messages_decoded(payload: Seq<u8>)
    ensures
        decoded(stop_word()) == CommandView::Stop,
        decoded(marker() + payload) == CommandView::Write(stripped(payload)),
        !holds_marker(payload) ==> decoded(marker() + payload) == CommandView::Write(payload),
{
    let message = marker() + payload;
    assert(message[0] == LOWER_M);
    assert(stop_word()[0] == LOWER_C);
    assert(message != stop_word());
    assert(Seq::<u8>::empty() + marker() + payload == message);
    lemma_stripped_around_marker(Seq::<u8>::empty(), payload);
    assert(stripped(Seq::<u8>::empty()) + stripped(payload) == stripped(payload));
    if !holds_marker(payload) {
        lemma_stripped_without_marker(payload);
    }
}

/// The numbers of `stop_word` and `marker` spell `cmd:stop` and `msg:`.
pub proof fn lemma_words_spelled()
    ensures
        stop_word() == "cmd:stop".spec_bytes(),
        marker() == "msg:".spec_bytes(),
{
    reveal_strlit("cmd:stop");
    reveal_strlit("msg:");
    vstd::string::is_ascii_spec_bytes("cmd:stop");
    vstd::string::is_ascii_spec_bytes("msg:");
}

} // verus!
