//! The terminal relay: each piece of console output that the native core
//! hands over becomes one pending `write-terminal` event, in call order.
//! The shell takes the pending events and publishes them to the GUI.
use vstd::prelude::*;
use vstd::utf8::{decode_utf8, valid_utf8};

verus! {

/// Payload of one `write-terminal` event.
pub struct TerminalData {
    pub terminal_id: String,
    pub data: String,
}

impl View for TerminalData {
    type V = (Seq<char>, Seq<char>);

    /// The payload as a pair (terminal id, text).
    open spec fn view(&self) -> (Seq<char>, Seq<char>) {
        (self.terminal_id@, self.data@)
    }
}

/// A log of events with one more event for terminal `id` carrying `text`.
pub open spec fn relayed(
    log: Seq<(Seq<char>, Seq<char>)>,
    id: Seq<char>,
    text: Seq<char>,
) -> Seq<(Seq<char>, Seq<char>)> {
    log.push((id, text))
}

/// The log after relaying every (id, text) pair of `calls`, in order.
pub open spec fn relayed_all(
    log: Seq<(Seq<char>, Seq<char>)>,
    calls: Seq<(Seq<char>, Seq<char>)>,
) -> Seq<(Seq<char>, Seq<char>)>
    decreases calls.len(),
{
    if calls.len() == 0 {
        log
    } else {
        let last = calls.last();
        relayed(relayed_all(log, calls.drop_last()), last.0, last.1)
    }
}

/// Pending `write-terminal` events, oldest first.
pub struct Relay {
    pending: Vec<TerminalData>,
}

impl View for Relay {
    type V = Seq<(Seq<char>, Seq<char>)>;

    closed spec fn view(&self) -> Seq<(Seq<char>, Seq<char>)> {
        self.pending@.map_values(|d: TerminalData| d@)
    }
}

impl Relay {
    /// A relay with no pending event.
    pub fn new() -> (r: Relay)
        ensures
            r@ == Seq::<(Seq<char>, Seq<char>)>::empty(),
    {
        let r = Relay { pending: Vec::new() };
        assert(r@ =~= Seq::<(Seq<char>, Seq<char>)>::empty());
        r
    }

    /// Number of pending events.
    pub fn len(&self) -> (n: usize)
        ensures
            n == self@.len(),
    {
        self.pending.len()
    }

    /// Hands out the pending events, oldest first, and leaves none behind.
    pub fn take_pending(&mut self) -> (r: Vec<TerminalData>)
        ensures
            r@.map_values(|d: TerminalData| d@) == old(self)@,
            final(self)@ == Seq::<(Seq<char>, Seq<char>)>::empty(),
    {
        let mut r = Vec::new();
        core::mem::swap(&mut r, &mut self.pending);
        assert(self@ =~= Seq::<(Seq<char>, Seq<char>)>::empty());
        r
    }

    fn push_event(&mut self, terminal_id: String, data: String)
        ensures
            final(self)@ == relayed(old(self)@, terminal_id@, data@),
    {
        let d = TerminalData { terminal_id, data };
        self.pending.push(d);
        assert(self@ =~= relayed(old(self)@, d.terminal_id@, d.data@));
    }
}

/// Text that `String::from_utf8_lossy` makes of a byte sequence.
pub uninterp spec fn lossy_decoded(b: Seq<u8>) -> Seq<char>;

/// Relies on `String::from_utf8_lossy`: the text depends on the bytes alone,
/// and valid UTF-8 comes back decoded as it is.
#[verifier::external_body]
fn decode_lossy(b: &[u8]) -> (r: String)
    ensures
        r@ == lossy_decoded(b@),
        valid_utf8(b@) ==> r@ == decode_utf8(b@),
{
    String::from_utf8_lossy(b).into_owned()
}

/// Queues one `write-terminal` event for terminal `terminal_id` with `text`.
pub fn _send_terminal_data(relay: &mut Relay, terminal_id: &str, text: &str)
    ensures
        final(relay)@ == relayed(old(relay)@, terminal_id@, text@),
{
    relay.push_event(terminal_id.to_owned(), text.to_owned());
}

/// Entry point for the native core: `terminal_id` and `text` are the bytes of
/// two C strings, without their terminators. Both are decoded lossily, so
/// malformed input still gives exactly one event.
pub fn send_terminal_data(relay: &mut Relay, terminal_id: &[u8], text: &[u8])
    ensures
        final(relay)@ == relayed(old(relay)@, lossy_decoded(terminal_id@), lossy_decoded(text@)),
        valid_utf8(terminal_id@) && valid_utf8(text@) ==> final(relay)@ == relayed(
            old(relay)@,
            decode_utf8(terminal_id@),
            decode_utf8(text@),
        ),
{
    let id = decode_lossy(terminal_id);
    let data = decode_lossy(text);
    _send_terminal_data(relay, id.as_str(), data.as_str());
}

/// Events come out in call order, each with the payload it was sent with:
/// two sends in a row add exactly their two pairs, first one first.
pub proof fn lemma_events_in_call_order(
    log: Seq<(Seq<char>, Seq<char>)>,
    id1: Seq<char>,
    text1: Seq<char>,
    id2: Seq<char>,
    text2: Seq<char>,
)
    ensures
        ({
            let after = relayed(relayed(log, id1, text1), id2, text2);
            &&& after.len() == log.len() + 2
            &&& after.subrange(0, log.len() as int) == log
            &&& after[log.len() as int] == (id1, text1)
            &&& after[log.len() + 1int] == (id2, text2)
        }),
{
    let after = relayed(relayed(log, id1, text1), id2, text2);
    assert(after.subrange(0, log.len() as int) =~= log);
}

/// Every call gives exactly one event, none lost and none duplicated: after
/// any run of calls the log is the old log followed by the calls themselves.
pub proof fn lemma_one_event_per_call(
    log: Seq<(Seq<char>, Seq<char>)>,
    calls: Seq<(Seq<char>, Seq<char>)>,
)
    ensures
        relayed_all(log, calls) == log + calls,
        relayed_all(log, calls).len() == log.len() + calls.len(),
    decreases calls.len(),
{
    if calls.len() > 0 {
        lemma_one_event_per_call(log, calls.drop_last());
        assert(log + calls =~= (log + calls.drop_last()).push(calls.last()));
    } else {
        assert(log + calls =~= log);
    }
}

} // verus!
