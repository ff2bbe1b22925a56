//! The output relay: what the host forwards to the front end for each event
//! that the child's output stream delivers.
//!
//! A line on the child's standard output or standard error becomes one event
//! for the front end, named after the channel and carrying the line as text.
//! Every other event is passed over, and the relay ends when the stream does.

use vstd::prelude::*;
use vstd::utf8::*;

verus! {

/// The two output channels of the child.
#[derive(Debug, Clone, Copy, PartialEq, Eq, Structural)]
pub enum Channel {
    Stdout,
    Stderr,
}

/// What the child's output stream delivers, in plain values.
#[derive(Debug, Clone, PartialEq, Eq)]
pub enum ChildEvent {
    /// A line on standard output, as raw bytes.
    Stdout(Vec<u8>),
    /// A line on standard error, as raw bytes.
    Stderr(Vec<u8>),
    /// A failure of the stream itself.
    Error(String),
    /// The child has ended, with its exit code and signal where known.
    Terminated { code: Option<i32>, signal: Option<i32> },
    /// Any other notice from the stream.
    Other,
}

/// One event for the front end: the channel that names it and the line that
/// it carries.
#[derive(Debug, Clone, PartialEq, Eq)]
pub struct Emission {
    pub channel: Channel,
    pub payload: String,
}

/// What the relay does with the next item of the child's output stream.
#[derive(Debug, Clone, PartialEq, Eq)]
pub enum RelayAction {
    /// Send this event to the front end, then go on.
    Emit(Emission),
    /// Send nothing, go on.
    Ignore,
    /// The stream has ended: end the relay.
    Stop,
}

/// The text that lossy decoding makes of `bytes`: the text they encode, with
/// the replacement character in place of each invalid sequence.
pub uninterp spec fn lossy_text(bytes: Seq<u8>) -> Seq<char>;

/// Decodes bytes as `String::from_utf8_lossy` does. Believed, not proved: the
/// result is a function of the bytes alone, and for bytes that are valid
/// UTF-8 it is the text that they encode. The call never fails.
#[verifier::external_body]
fn decode_lossy(bytes: &[u8]) -> (text: String)
    ensures
        text@ == lossy_text(bytes@),
        valid_utf8(bytes@) ==> text@ == decode_utf8(bytes@),
{
    String::from_utf8_lossy(bytes).into_owned()
}

impl View for Emission {
    type V = (Channel, Seq<char>);

    open spec fn view(&self) -> (Channel, Seq<char>) {
        (self.channel, self.payload@)
    }
}

/// The text of a line of output: what its bytes encode where they are valid
/// UTF-8, and what lossy decoding makes of them where they are not.
pub open spec fn line_text(bytes: Seq<u8>) -> Seq<char> {
    if valid_utf8(bytes) {
        decode_utf8(bytes)
    } else {
        lossy_text(bytes)
    }
}

/// The name of the front-end event for a channel.
pub open spec fn event_name_text(channel: Channel) -> Seq<char> {
    match channel {
        Channel::Stdout => "sidecar-stdout"@,
        Channel::Stderr => "sidecar-stderr"@,
    }
}

/// The channel and raw line of an event that carries output, `None` for any
/// other event.
pub open spec fn output_line(event: ChildEvent) -> Option<(Channel, Seq<u8>)> {
    match event {
        ChildEvent::Stdout(bytes) => Some((Channel::Stdout, bytes@)),
        ChildEvent::Stderr(bytes) => Some((Channel::Stderr, bytes@)),
        _ => None,
    }
}

/// What is forwarded for one event: for a line, its channel and its text;
/// for any other event, nothing.
pub open spec fn forwarded(event: ChildEvent) -> Option<(Channel, Seq<char>)> {
    match output_line(event) {
        Some((channel, bytes)) => Some((channel, line_text(bytes))),
        None => None,
    }
}

/// Everything that the relay forwards for a run of events, in order.
pub open spec fn relay_trace(events: Seq<ChildEvent>) -> Seq<(Channel, Seq<char>)>
    decreases events.len(),
{
    if events.len() == 0 {
        Seq::empty()
    } else {
        match forwarded(events.last()) {
            Some(emission) => relay_trace(events.drop_last()).push(emission),
            None => relay_trace(events.drop_last()),
        }
    }
}

/// The raw lines that a run of events carries on one channel, in order.
pub open spec fn lines_on(events: Seq<ChildEvent>, channel: Channel) -> Seq<Seq<u8>>
    decreases events.len(),
{
    if events.len() == 0 {
        Seq::empty()
    } else {
        match output_line(events.last()) {
            Some((c, bytes)) if c == channel => lines_on(events.drop_last(), channel).push(bytes),
            _ => lines_on(events.drop_last(), channel),
        }
    }
}

/// The payloads that a run of emissions carries on one channel, in order.
pub open spec fn payloads_on(emissions: Seq<(Channel, Seq<char>)>, channel: Channel) -> Seq<
    Seq<char>,
>
    decreases emissions.len(),
{
    if emissions.len() == 0 {
        Seq::empty()
    } else if emissions.last().0 == channel {
        payloads_on(emissions.drop_last(), channel).push(emissions.last().1)
    } else {
        payloads_on(emissions.drop_last(), channel)
    }
}

/// The text of each line, in order.
pub open spec fn decoded(lines: Seq<Seq<u8>>) -> Seq<Seq<char>> {
    lines.map_values(|bytes: Seq<u8>| line_text(bytes))
}

/// The emissions of a vector, each by its view.
pub open spec fn emissions_view(emissions: Seq<Emission>) -> Seq<(Channel, Seq<char>)> {
    emissions.map_values(|e: Emission| e@)
}

/// The name under which the front end receives the lines of a channel.
pub fn event_name(channel: Channel) -> (name: &'static str)
    ensures
        name@ == event_name_text(channel),
{
    match channel {
        Channel::Stdout => "sidecar-stdout",
        Channel::Stderr => "sidecar-stderr",
    }
}

/// The action that sends one line, already decoded, to the front end under
/// its channel.
pub fn emit_line(channel: Channel, text: String) -> (action: RelayAction)
    ensures
        action == RelayAction::Emit(Emission { channel: channel, payload: text }),
{
    RelayAction::Emit(Emission { channel, payload: text })
}

/// One step of the relay. The end of the stream stops it; a line on either
/// channel is sent on, once, under that channel and as text; any other event
/// is passed over.
pub fn relay_step(next: Option<&ChildEvent>) -> (action: RelayAction)
    ensures
        next is None ==> action is Stop,
        next is Some ==> match forwarded(*next->0) {
            Some(emission) => action matches RelayAction::Emit(sent) && sent@ == emission,
            None => action is Ignore,
        },
{
    match next {
        None => RelayAction::Stop,
        Some(ChildEvent::Stdout(bytes)) => emit_line(
            Channel::Stdout,
            decode_lossy(bytes.as_slice()),
        ),
        Some(ChildEvent::Stderr(bytes)) => emit_line(
            Channel::Stderr,
            decode_lossy(bytes.as_slice()),
        ),
        Some(_) => RelayAction::Ignore,
    }
}

/// Runs the relay over a whole stream that has ended: the emissions for its
/// events, in the order of the events.
pub fn relay_all(events: &Vec<ChildEvent>) -> (emissions: Vec<Emission>)
    ensures
        emissions_view(emissions@) == relay_trace(events@),
{
    let mut emissions: Vec<Emission> = Vec::new();
    let mut i: usize = 0;
    while i < events.len()
        invariant
            i <= events.len(),
            emissions_view(emissions@) == relay_trace(events@.take(i as int)),
        decreases events.len() - i,
    {
        let ghost before = emissions@;
        proof {
            assert(events@.take(i + 1).drop_last() =~= events@.take(i as int));
            assert(events@.take(i + 1).last() == events@[i as int]);
        }
        match relay_step(Some(&events[i])) {
            RelayAction::Emit(sent) => {
                emissions.push(sent);
                proof {
                    assert(emissions_view(emissions@) =~= emissions_view(before).push(sent@));
                }
            },
            _ => {},
        }
        i += 1;
    }
    proof {
        assert(events@.take(i as int) =~= events@);
    }
    emissions
}

/// Taking the payloads of one channel goes through appending an emission.
proof fn payloads_on_push(
    emissions: Seq<(Channel, Seq<char>)>,
    emission: (Channel, Seq<char>),
    channel: Channel,
)
    ensures
        payloads_on(emissions.push(emission), channel) == if emission.0 == channel {
            payloads_on(emissions, channel).push(emission.1)
        } else {
            payloads_on(emissions, channel)
        },
{
    assert(emissions.push(emission).drop_last() =~= emissions);
    assert(emissions.push(emission).last() == emission);
}

/// The relay forwards exactly one event for each line, and on each channel in
/// the order of the lines: the payloads sent on a channel are the lines that
/// the child wrote on it, each as text, one for one and in order.
/// Nothing is said of how the two channels interleave beyond the order of the
/// events themselves.
pub proof fn law_relay_preserves_lines(events: Seq<ChildEvent>, channel: Channel)
    ensures
        payloads_on(relay_trace(events), channel) == decoded(lines_on(events, channel)),
        payloads_on(relay_trace(events), channel).len() == lines_on(events, channel).len(),
    decreases events.len(),
{
    if events.len() == 0 {
        assert(decoded(lines_on(events, channel)) =~= Seq::empty());
    } else {
        let rest = events.drop_last();
        law_relay_preserves_lines(rest, channel);
        match output_line(events.last()) {
            Some((c, bytes)) => {
                payloads_on_push(relay_trace(rest), (c, line_text(bytes)), channel);
                if c == channel {
                    assert(decoded(lines_on(rest, channel).push(bytes)) =~= decoded(
                        lines_on(rest, channel),
                    ).push(line_text(bytes)));
                }
            },
            None => {},
        }
    }
}

/// The relay sends nothing but lines: the number of emissions for a run of
/// events is the number of lines on the two channels together.
pub proof fn law_relay_emits_once_per_line(events: Seq<ChildEvent>)
    ensures
        relay_trace(events).len() == lines_on(events, Channel::Stdout).len() + lines_on(
            events,
            Channel::Stderr,
        ).len(),
    decreases events.len(),
{
    if events.len() > 0 {
        law_relay_emits_once_per_line(events.drop_last());
    }
}

} // verus!
