//! The reader dispatcher: turns the stream of low-level channel
//! events into tagged notifications for a sink.
//!
//! Data events are decoded as UTF-8 with replacement characters and
//! forwarded in order; the first end-of-stream signal (an explicit
//! Eof event, or the stream running out) terminates the loop; every
//! other event kind is ignored. Exactly one Exit notification closes
//! the stream of notifications, whatever the termination path was.

use vstd::prelude::*;
use vstd::string::*;

verus! {

/// One event received from the channel, as the read loop sees it.
pub enum ChannelEvent {
    /// A chunk of the remote shell's output.
    Data(Vec<u8>),
    /// The remote side signalled end-of-stream.
    Eof,
    /// Any other protocol event (exit status, window change, ...):
    /// ignored, never fatal.
    Other,
}

/// One notification delivered to the sink, tagged with the session
/// it belongs to through its event name.
pub enum Notification {
    /// Terminal output, decoded as UTF-8 with replacement characters.
    Data { name: String, text: String },
    /// The session's read side has concluded; carries no payload.
    Exit { name: String },
}

/// The text that a byte sequence decodes to as UTF-8, with the
/// replacement character substituted for invalid sequences.
pub uninterp spec fn lossy_utf8(bytes: Seq<u8>) -> Seq<char>;

/// Relies on `String::from_utf8_lossy`: decodes any byte sequence,
/// substituting U+FFFD for invalid UTF-8, and never fails.
#[verifier::external_body]
fn decode_lossy(bytes: &[u8]) -> (r: String)
    ensures
        r@ == lossy_utf8(bytes@),
{
    String::from_utf8_lossy(bytes).to_string()
}

/// The event name tagging a data notification with its session.
pub fn data_event_name(id: &str) -> (r: String)
    ensures
        r@ == "term-data-"@ + id@,
{
    let mut s = String::from_str("term-data-");
    s.append(id);
    s
}

/// The event name tagging an exit notification with its session.
pub fn exit_event_name(id: &str) -> (r: String)
    ensures
        r@ == "term-exit-"@ + id@,
{
    let mut s = String::from_str("term-exit-");
    s.append(id);
    s
}

/// The data notification for one payload of one session.
pub open spec fn spec_is_data_note(n: Notification, id: Seq<char>, payload: Seq<u8>) -> bool {
    n matches Notification::Data { name, text } && name@ == "term-data-"@ + id && text@
        == lossy_utf8(payload)
}

/// The exit notification of one session.
pub open spec fn spec_is_exit_note(n: Notification, id: Seq<char>) -> bool {
    n matches Notification::Exit { name } && name@ == "term-exit-"@ + id
}

/// Sessions never share notification tags: distinct session ids give
/// distinct data event names and distinct exit event names, so the
/// notifications of concurrently running read loops can always be
/// told apart, however their deliveries interleave.
pub proof fn lemma_tags_separate_sessions(id_a: Seq<char>, id_b: Seq<char>)
    requires
        id_a != id_b,
    ensures
        "term-data-"@ + id_a != "term-data-"@ + id_b,
        "term-exit-"@ + id_a != "term-exit-"@ + id_b,
{
    let da = "term-data-"@ + id_a;
    let db = "term-data-"@ + id_b;
    let ea = "term-exit-"@ + id_a;
    let eb = "term-exit-"@ + id_b;
    let k = "term-data-"@.len() as int;
    let m = "term-exit-"@.len() as int;
    assert(da.skip(k) =~= id_a);
    assert(db.skip(k) =~= id_b);
    assert(ea.skip(m) =~= id_a);
    assert(eb.skip(m) =~= id_b);
}

/// Whether the event sequence contains an explicit end-of-stream.
pub open spec fn spec_has_eof(events: Seq<ChannelEvent>) -> bool
    decreases events.len(),
{
    if events.len() == 0 {
        false
    } else {
        events[0] is Eof || spec_has_eof(events.skip(1))
    }
}

/// The payloads of the data events that precede the first explicit
/// end-of-stream, in their original order: exactly the chunks the
/// read loop forwards.
pub open spec fn spec_data_payloads(events: Seq<ChannelEvent>) -> Seq<Seq<u8>>
    decreases events.len(),
{
    if events.len() == 0 {
        Seq::empty()
    } else {
        match events[0] {
            ChannelEvent::Data(d) => seq![d@] + spec_data_payloads(events.skip(1)),
            ChannelEvent::Eof => Seq::empty(),
            ChannelEvent::Other => spec_data_payloads(events.skip(1)),
        }
    }
}

proof fn lemma_has_eof_push(s: Seq<ChannelEvent>, e: ChannelEvent)
    ensures
        spec_has_eof(s.push(e)) == (spec_has_eof(s) || e is Eof),
    decreases s.len(),
{
    if s.len() == 0 {
        assert(s.push(e)[0] == e);
        assert(s.push(e).skip(1) =~= Seq::<ChannelEvent>::empty());
        assert(!spec_has_eof(Seq::<ChannelEvent>::empty()));
    } else {
        assert(s.push(e)[0] == s[0]);
        assert(s.push(e).skip(1) =~= s.skip(1).push(e));
        lemma_has_eof_push(s.skip(1), e);
    }
}

proof fn lemma_payloads_push(s: Seq<ChannelEvent>, e: ChannelEvent)
    requires
        !spec_has_eof(s),
    ensures
        spec_data_payloads(s.push(e)) == (match e {
            ChannelEvent::Data(d) => spec_data_payloads(s).push(d@),
            _ => spec_data_payloads(s),
        }),
    decreases s.len(),
{
    if s.len() == 0 {
        assert(s.push(e)[0] == e);
        assert(s.push(e).skip(1) =~= Seq::<ChannelEvent>::empty());
        assert(spec_data_payloads(Seq::<ChannelEvent>::empty()) == Seq::<Seq<u8>>::empty());
        assert(spec_data_payloads(s) == Seq::<Seq<u8>>::empty());
        match e {
            ChannelEvent::Data(d) => {
                assert(spec_data_payloads(s.push(e)) =~= spec_data_payloads(s).push(d@));
            },
            _ => {
                assert(spec_data_payloads(s.push(e)) =~= spec_data_payloads(s));
            },
        }
    } else {
        assert(s.push(e)[0] == s[0]);
        assert(s.push(e).skip(1) =~= s.skip(1).push(e));
        lemma_payloads_push(s.skip(1), e);
        match s[0] {
            ChannelEvent::Data(_) => {
                match e {
                    ChannelEvent::Data(d) => {
                        assert(spec_data_payloads(s.push(e)) =~= spec_data_payloads(s).push(d@));
                    },
                    _ => {
                        assert(spec_data_payloads(s.push(e)) =~= spec_data_payloads(s));
                    },
                }
            },
            ChannelEvent::Eof => {
                assert(false);
            },
            ChannelEvent::Other => {
            },
        }
    }
}

proof fn lemma_payloads_eof_stop(s: Seq<ChannelEvent>, i: int)
    requires
        0 <= i < s.len(),
        s[i] is Eof,
        !spec_has_eof(s.take(i)),
    ensures
        spec_data_payloads(s) == spec_data_payloads(s.take(i)),
    decreases i,
{
    if i == 0 {
        assert(spec_data_payloads(s.take(0)) =~= Seq::<Seq<u8>>::empty());
    } else {
        assert(s.take(i)[0] == s[0]);
        assert(s.take(i).skip(1) =~= s.skip(1).take(i - 1));
        assert(!(s[0] is Eof));
        assert(s.skip(1)[i - 1] == s[i]);
        lemma_payloads_eof_stop(s.skip(1), i - 1);
        match s[0] {
            ChannelEvent::Data(_) => {
                assert(spec_data_payloads(s) =~= spec_data_payloads(s.take(i)));
            },
            ChannelEvent::Eof => {
                assert(false);
            },
            ChannelEvent::Other => {
                assert(spec_data_payloads(s) =~= spec_data_payloads(s.take(i)));
            },
        }
    }
}

/// What the read loop does with one received event (`None` stands
/// for the stream running out without an explicit Eof).
pub enum StepResult {
    /// Forward this notification to the sink and keep reading.
    Forward(Notification),
    /// Nothing to forward; keep reading.
    Continue,
    /// Stop reading; the caller then emits the exit notification.
    End,
}

/// One iteration of the read loop: data is decoded and forwarded,
/// an explicit Eof or an exhausted stream ends the loop, and every
/// other event kind is ignored.
pub fn reader_step(id: &str, event: Option<ChannelEvent>) -> (r: StepResult)
    ensures
        event matches Some(ChannelEvent::Data(d)) ==> (r matches StepResult::Forward(n)
            && spec_is_data_note(n, id@, d@)),
        event matches Some(ChannelEvent::Eof) ==> r is End,
        event matches Some(ChannelEvent::Other) ==> r is Continue,
        event is None ==> r is End,
{
    match event {
        Some(ChannelEvent::Data(d)) => {
            let name = data_event_name(id);
            let text = decode_lossy(d.as_slice());
            StepResult::Forward(Notification::Data { name, text })
        },
        Some(ChannelEvent::Eof) => StepResult::End,
        Some(ChannelEvent::Other) => StepResult::Continue,
        None => StepResult::End,
    }
}

/// The exit notification that closes a session's stream, emitted
/// exactly once when the read loop terminates for any reason.
pub fn exit_notification(id: &str) -> (r: Notification)
    ensures
        spec_is_exit_note(r, id@),
{
    Notification::Exit { name: exit_event_name(id) }
}

/// Runs the read loop over a whole received event sequence: the
/// result is exactly one data notification per data event preceding
/// the first Eof, in the original order, followed by exactly one
/// exit notification — and nothing after it.
pub fn dispatch_events(id: &str, events: &Vec<ChannelEvent>) -> (r: Vec<Notification>)
    ensures
        r@.len() == spec_data_payloads(events@).len() + 1,
        forall|j: int|
            0 <= j < spec_data_payloads(events@).len() ==> spec_is_data_note(
                r@[j],
                id@,
                spec_data_payloads(events@)[j],
            ),
        spec_is_exit_note(r@[r@.len() - 1], id@),
{
    let n: usize = events.len();
    let mut out: Vec<Notification> = Vec::new();
    let mut i: usize = 0;
    let mut done = false;
    while i < n && !done
        invariant
            i <= n,
            n == events@.len(),
            !done ==> !spec_has_eof(events@.take(i as int)),
            !done ==> out@.len() == spec_data_payloads(events@.take(i as int)).len(),
            !done ==> forall|j: int|
                0 <= j < out@.len() ==> spec_is_data_note(
                    out@[j],
                    id@,
                    spec_data_payloads(events@.take(i as int))[j],
                ),
            done ==> out@.len() == spec_data_payloads(events@).len(),
            done ==> forall|j: int|
                0 <= j < out@.len() ==> spec_is_data_note(
                    out@[j],
                    id@,
                    spec_data_payloads(events@)[j],
                ),
        decreases n - i,
    {
        proof {
            assert(events@.take(i as int + 1) =~= events@.take(i as int).push(
                events@[i as int],
            ));
        }
        match &events[i] {
            ChannelEvent::Data(d) => {
                let name = data_event_name(id);
                let text = decode_lossy(d.as_slice());
                out.push(Notification::Data { name, text });
                proof {
                    lemma_payloads_push(events@.take(i as int), events@[i as int]);
                    lemma_has_eof_push(events@.take(i as int), events@[i as int]);
                }
            },
            ChannelEvent::Eof => {
                proof {
                    lemma_payloads_eof_stop(events@, i as int);
                }
                done = true;
            },
            ChannelEvent::Other => {
                proof {
                    lemma_payloads_push(events@.take(i as int), events@[i as int]);
                    lemma_has_eof_push(events@.take(i as int), events@[i as int]);
                }
            },
        }
        i = i + 1;
    }
    proof {
        if !done {
            assert(events@.take(n as int) =~= events@);
        }
    }
    out.push(exit_notification(id));
    out
}

} // verus!
