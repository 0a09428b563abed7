//! Frames of the motor board's serial protocol: how they are written, how
//! their checksum works, and the receiver that picks replies out of the bytes.

use vstd::prelude::*;

verus! {

/// First start-of-frame byte.
pub const FRAME_SOF0: u8 = 0xAA;
/// Second start-of-frame byte.
pub const FRAME_SOF1: u8 = 0x55;

/// Largest payload a frame can carry: its length travels in one byte.
pub const MAX_PAYLOAD: usize = 255;

// ---------------------------------------------------------------------------
// Checksum
// ---------------------------------------------------------------------------

/// `acc` xor-ed with every byte of `bytes`, first to last.
pub open spec fn xor_fold(acc: u8, bytes: Seq<u8>) -> u8
    decreases bytes.len(),
{
    if bytes.len() == 0 {
        acc
    } else {
        xor_fold(acc ^ bytes[0], bytes.drop_first())
    }
}

/// The checksum of a frame: command, length and every payload byte xor-ed together.
pub open spec fn spec_checksum(cmd: u8, len: u8, payload: Seq<u8>) -> u8 {
    xor_fold(cmd ^ len, payload)
}

pub fn checksum(cmd: u8, len: u8, payload: &[u8]) -> (res: u8)
    ensures
        res == spec_checksum(cmd, len, payload@),
{
    let mut acc: u8 = cmd ^ len;
    let mut i: usize = 0;
    assert(payload@.skip(0) =~= payload@);
    while i < payload.len()
        invariant
            i <= payload@.len(),
            xor_fold(acc, payload@.skip(i as int)) == spec_checksum(cmd, len, payload@),
        decreases payload@.len() - i,
    {
        assert(payload@.skip(i as int).drop_first() =~= payload@.skip(i + 1));
        acc = acc ^ payload[i];
        i = i + 1;
    }
    assert(payload@.skip(i as int) =~= Seq::<u8>::empty());
    acc
}

/// Xor-ing one more byte onto a fold is the same as folding the longer sequence.
pub proof fn lemma_xor_fold_push(acc: u8, bytes: Seq<u8>, b: u8)
    ensures
        xor_fold(acc, bytes.push(b)) == xor_fold(acc, bytes) ^ b,
    decreases bytes.len(),
{
    let longer = bytes.push(b);
    assert(longer[0] == if bytes.len() == 0 { b } else { bytes[0] });
    if bytes.len() == 0 {
        assert(longer.drop_first() =~= Seq::<u8>::empty());
        assert(xor_fold(acc ^ b, Seq::<u8>::empty()) == acc ^ b);
    } else {
        assert(longer.drop_first() =~= bytes.drop_first().push(b));
        lemma_xor_fold_push(acc ^ bytes[0], bytes.drop_first(), b);
    }
}

// ---------------------------------------------------------------------------
// Frames
// ---------------------------------------------------------------------------

/// The bytes of a frame: the two start bytes, the command, the payload length,
/// the payload and the checksum.
pub open spec fn spec_frame(cmd: u8, payload: Seq<u8>) -> Seq<u8> {
    let len = payload.len() as u8;
    seq![FRAME_SOF0, FRAME_SOF1, cmd, len] + payload + seq![spec_checksum(cmd, len, payload)]
}

/// Encodes a frame; a payload longer than one length byte can count gives `None`
/// and nothing is sent.
pub fn encode_frame(cmd: u8, payload: &[u8]) -> (res: Option<Vec<u8>>)
    ensures
        res is None <==> payload@.len() > MAX_PAYLOAD,
        res matches Some(frame) ==> frame@ == spec_frame(cmd, payload@),
{
    if payload.len() > MAX_PAYLOAD {
        return None;
    }
    let len = payload.len() as u8;
    let mut frame: Vec<u8> = Vec::with_capacity(payload.len() + 5);
    frame.push(FRAME_SOF0);
    frame.push(FRAME_SOF1);
    frame.push(cmd);
    frame.push(len);
    let mut i: usize = 0;
    while i < payload.len()
        invariant
            i <= payload@.len(),
            len == payload@.len(),
            frame@ == seq![FRAME_SOF0, FRAME_SOF1, cmd, len] + payload@.take(i as int),
        decreases payload@.len() - i,
    {
        frame.push(payload[i]);
        i = i + 1;
        assert(frame@ =~= seq![FRAME_SOF0, FRAME_SOF1, cmd, len] + payload@.take(i as int));
    }
    frame.push(checksum(cmd, len, payload));
    assert(payload@.take(i as int) =~= payload@);
    assert(frame@ =~= spec_frame(cmd, payload@));
    Some(frame)
}

/// The protocol's check: xor-ing the command, the length, the payload and the
/// checksum byte of any frame gives zero.
pub proof fn lemma_frame_checksum_cancels(cmd: u8, payload: Seq<u8>)
    requires
        payload.len() <= MAX_PAYLOAD,
    ensures
        ({
            let frame = spec_frame(cmd, payload);
            xor_fold(0, frame.subrange(2, frame.len() as int)) == 0
        }),
{
    let frame = spec_frame(cmd, payload);
    let len = payload.len() as u8;
    let body = frame.subrange(2, frame.len() as int);
    let chk = spec_checksum(cmd, len, payload);
    assert(body =~= (seq![cmd, len] + payload).push(chk));
    let head = seq![cmd, len] + payload;
    lemma_xor_fold_push(0, head, chk);
    assert(head[0] == cmd);
    assert(head.drop_first() =~= seq![len] + payload);
    assert((seq![len] + payload)[0] == len);
    assert((seq![len] + payload).drop_first() =~= payload);
    assert(0u8 ^ cmd == cmd) by (bit_vector);
    assert(xor_fold(0, head) == xor_fold(cmd, seq![len] + payload));
    assert(xor_fold(cmd, seq![len] + payload) == xor_fold(cmd ^ len, payload));
    assert(chk ^ chk == 0u8) by (bit_vector);
}

// ---------------------------------------------------------------------------
// Receiver
// ---------------------------------------------------------------------------

/// How far the receiver has got into a frame, as a mathematical value.
pub enum RxPhase {
    /// Looking for the first start byte.
    Hunt,
    /// The first start byte came; the second must follow.
    Sync,
    /// Waiting for the command byte.
    Command,
    /// Waiting for the payload length.
    Length { cmd: u8 },
    /// Collecting payload bytes; `data` holds those seen so far.
    Payload { cmd: u8, len: u8, data: Seq<u8> },
    /// The whole payload is in; the checksum byte comes next.
    Checksum { cmd: u8, len: u8, data: Seq<u8> },
}

/// What the receiver asks of its caller after a step, as a mathematical value.
pub enum RxSignal {
    /// Read the next byte within what is left of the overall time budget;
    /// give up once it is spent.
    AwaitStart,
    /// Read the next byte within the short per-byte timeout.
    AwaitNext,
    /// A frame with a matching checksum is complete.
    Deliver { cmd: u8, payload: Seq<u8> },
    /// A byte inside a frame did not come in time.
    GiveUp,
}

/// The receiver's state.
pub enum RxState {
    Hunt,
    Sync,
    Command,
    Length { cmd: u8 },
    Payload { cmd: u8, len: u8, data: Vec<u8> },
    Checksum { cmd: u8, len: u8, data: Vec<u8> },
}

impl View for RxState {
    type V = RxPhase;

    open spec fn view(&self) -> RxPhase {
        match self {
            RxState::Hunt => RxPhase::Hunt,
            RxState::Sync => RxPhase::Sync,
            RxState::Command => RxPhase::Command,
            RxState::Length { cmd } => RxPhase::Length { cmd: *cmd },
            RxState::Payload { cmd, len, data } => RxPhase::Payload { cmd: *cmd, len: *len, data: data@ },
            RxState::Checksum { cmd, len, data } => RxPhase::Checksum { cmd: *cmd, len: *len, data: data@ },
        }
    }
}

/// What the receiver asks of its caller after a step.
#[derive(Debug, PartialEq, Eq)]
pub enum RxAction {
    AwaitStart,
    AwaitNext,
    Deliver { cmd: u8, payload: Vec<u8> },
    GiveUp,
}

impl View for RxAction {
    type V = RxSignal;

    open spec fn view(&self) -> RxSignal {
        match self {
            RxAction::AwaitStart => RxSignal::AwaitStart,
            RxAction::AwaitNext => RxSignal::AwaitNext,
            RxAction::Deliver { cmd, payload } => RxSignal::Deliver { cmd: *cmd, payload: payload@ },
            RxAction::GiveUp => RxSignal::GiveUp,
        }
    }
}

/// One step of the receiver: the byte that came, or `None` when the read timed out.
/// A timeout while hunting, or a wrong second start byte, or a bad checksum,
/// sends the receiver back to hunting; a timeout inside a frame gives up.
pub open spec fn spec_rx_step(p: RxPhase, event: Option<u8>) -> (RxPhase, RxSignal) {
    match p {
        RxPhase::Hunt => if event == Some(FRAME_SOF0) {
            (RxPhase::Sync, RxSignal::AwaitNext)
        } else {
            (RxPhase::Hunt, RxSignal::AwaitStart)
        },
        RxPhase::Sync => if event == Some(FRAME_SOF1) {
            (RxPhase::Command, RxSignal::AwaitNext)
        } else {
            (RxPhase::Hunt, RxSignal::AwaitStart)
        },
        RxPhase::Command => match event {
            Some(c) => (RxPhase::Length { cmd: c }, RxSignal::AwaitNext),
            None => (RxPhase::Hunt, RxSignal::GiveUp),
        },
        RxPhase::Length { cmd } => match event {
            Some(l) => if l == 0 {
                (RxPhase::Checksum { cmd, len: 0, data: Seq::empty() }, RxSignal::AwaitNext)
            } else {
                (RxPhase::Payload { cmd, len: l, data: Seq::empty() }, RxSignal::AwaitNext)
            },
            None => (RxPhase::Hunt, RxSignal::GiveUp),
        },
        RxPhase::Payload { cmd, len, data } => match event {
            Some(b) => if data.len() + 1 == len {
                (RxPhase::Checksum { cmd, len, data: data.push(b) }, RxSignal::AwaitNext)
            } else {
                (RxPhase::Payload { cmd, len, data: data.push(b) }, RxSignal::AwaitNext)
            },
            None => (RxPhase::Hunt, RxSignal::GiveUp),
        },
        RxPhase::Checksum { cmd, len, data } => match event {
            Some(k) => if k == spec_checksum(cmd, len, data) {
                (RxPhase::Hunt, RxSignal::Deliver { cmd, payload: data })
            } else {
                (RxPhase::Hunt, RxSignal::AwaitStart)
            },
            None => (RxPhase::Hunt, RxSignal::GiveUp),
        },
    }
}

/// Picks reply frames out of a byte stream, one byte (or timeout) at a time.
pub struct FrameReceiver {
    state: RxState,
}

impl View for FrameReceiver {
    type V = RxPhase;

    closed spec fn view(&self) -> RxPhase {
        self.state@
    }
}

impl FrameReceiver {
    /// A receiver that is looking for the start of a frame.
    pub fn new() -> (res: FrameReceiver)
        ensures
            res@ == RxPhase::Hunt,
    {
        FrameReceiver { state: RxState::Hunt }
    }

    /// Feeds the outcome of one read: `Some(byte)`, or `None` when it timed out.
    pub fn step(&mut self, event: Option<u8>) -> (act: RxAction)
        ensures
            (final(self)@, act@) == spec_rx_step(old(self)@, event),
    {
        let mut current = RxState::Hunt;
        std::mem::swap(&mut current, &mut self.state);
        let (next, act) = rx_transition(current, event);
        self.state = next;
        act
    }
}

fn rx_transition(state: RxState, event: Option<u8>) -> (res: (RxState, RxAction))
    ensures
        (res.0@, res.1@) == spec_rx_step(state@, event),
{
    match state {
        RxState::Hunt => {
            if event == Some(FRAME_SOF0) {
                (RxState::Sync, RxAction::AwaitNext)
            } else {
                (RxState::Hunt, RxAction::AwaitStart)
            }
        },
        RxState::Sync => {
            if event == Some(FRAME_SOF1) {
                (RxState::Command, RxAction::AwaitNext)
            } else {
                (RxState::Hunt, RxAction::AwaitStart)
            }
        },
        RxState::Command => match event {
            Some(c) => (RxState::Length { cmd: c }, RxAction::AwaitNext),
            None => (RxState::Hunt, RxAction::GiveUp),
        },
        RxState::Length { cmd } => match event {
            Some(l) => {
                if l == 0 {
                    let res = (RxState::Checksum { cmd, len: 0, data: Vec::new() }, RxAction::AwaitNext);
                    assert(res.0@ == RxPhase::Checksum { cmd, len: 0, data: Seq::empty() });
                    res
                } else {
                    (RxState::Payload { cmd, len: l, data: Vec::new() }, RxAction::AwaitNext)
                }
            },
            None => (RxState::Hunt, RxAction::GiveUp),
        },
        RxState::Payload { cmd, len, data } => match event {
            Some(b) => {
                let mut data = data;
                let complete = (len as usize) >= 1 && data.len() == (len as usize) - 1;
                data.push(b);
                if complete {
                    (RxState::Checksum { cmd, len, data }, RxAction::AwaitNext)
                } else {
                    (RxState::Payload { cmd, len, data }, RxAction::AwaitNext)
                }
            },
            None => (RxState::Hunt, RxAction::GiveUp),
        },
        RxState::Checksum { cmd, len, data } => match event {
            Some(k) => {
                if k == checksum(cmd, len, data.as_slice()) {
                    (RxState::Hunt, RxAction::Deliver { cmd, payload: data })
                } else {
                    (RxState::Hunt, RxAction::AwaitStart)
                }
            },
            None => (RxState::Hunt, RxAction::GiveUp),
        },
    }
}

// ---------------------------------------------------------------------------
// What the receiver makes of a whole stream
// ---------------------------------------------------------------------------

/// The phase the receiver reaches from `p` when it is fed `bytes`, each arriving in time.
pub open spec fn phase_after(p: RxPhase, bytes: Seq<u8>) -> RxPhase
    decreases bytes.len(),
{
    if bytes.len() == 0 {
        p
    } else {
        spec_rx_step(phase_after(p, bytes.drop_last()), Some(bytes.last())).0
    }
}

/// Where a receiver that started hunting stands after the first `k` bytes of
/// the frame `(cmd, payload)`.
pub open spec fn frame_progress(cmd: u8, payload: Seq<u8>, k: int) -> RxPhase {
    let len = payload.len() as u8;
    if k == 0 {
        RxPhase::Hunt
    } else if k == 1 {
        RxPhase::Sync
    } else if k == 2 {
        RxPhase::Command
    } else if k == 3 {
        RxPhase::Length { cmd }
    } else if k - 4 == payload.len() {
        RxPhase::Checksum { cmd, len, data: payload }
    } else {
        RxPhase::Payload { cmd, len, data: payload.take(k - 4) }
    }
}

proof fn lemma_phase_after_push(p: RxPhase, bytes: Seq<u8>, b: u8)
    ensures
        phase_after(p, bytes.push(b)) == spec_rx_step(phase_after(p, bytes), Some(b)).0,
{
    assert(bytes.push(b).drop_last() =~= bytes);
}

/// Feeding two pieces one after the other is feeding their concatenation.
pub proof fn lemma_phase_after_concat(p: RxPhase, a: Seq<u8>, b: Seq<u8>)
    ensures
        phase_after(p, a + b) == phase_after(phase_after(p, a), b),
    decreases b.len(),
{
    if b.len() == 0 {
        assert(a + b =~= a);
    } else {
        assert((a + b).drop_last() =~= a + b.drop_last());
        lemma_phase_after_concat(p, a, b.drop_last());
    }
}

proof fn lemma_frame_progress(cmd: u8, payload: Seq<u8>, k: int)
    requires
        payload.len() <= MAX_PAYLOAD,
        0 <= k < spec_frame(cmd, payload).len(),
    ensures
        phase_after(RxPhase::Hunt, spec_frame(cmd, payload).take(k)) == frame_progress(cmd, payload, k),
        k + 1 < spec_frame(cmd, payload).len() ==>
            spec_rx_step(frame_progress(cmd, payload, k), Some(spec_frame(cmd, payload)[k]))
                == (frame_progress(cmd, payload, k + 1), RxSignal::AwaitNext),
    decreases k,
{
    let frame = spec_frame(cmd, payload);
    let len = payload.len() as u8;
    if k == 0 {
        assert(frame.take(0) =~= Seq::<u8>::empty());
    } else {
        lemma_frame_progress(cmd, payload, k - 1);
        assert(frame.take(k) =~= frame.take(k - 1).push(frame[k - 1]));
        lemma_phase_after_push(RxPhase::Hunt, frame.take(k - 1), frame[k - 1]);
    }
    if k + 1 < frame.len() {
        if k >= 4 {
            let j = k - 4;
            assert(frame[k] == payload[j]);
            assert(payload.take(j).push(payload[j]) =~= payload.take(j + 1));
            if j + 1 == payload.len() {
                assert(payload.take(j + 1) =~= payload);
            }
        } else if k == 3 {
            assert(frame[3] == len);
            if payload.len() == 0 {
                assert(payload =~= Seq::<u8>::empty());
            } else {
                assert(payload.take(0) =~= Seq::<u8>::empty());
            }
        }
    }
}

/// What a write gives a read: a receiver that is hunting and is fed, in time,
/// the bytes of an encoded frame asks for each next byte until the last, and
/// the last byte makes it deliver exactly that frame and hunt again.
pub proof fn lemma_frame_round_trip(cmd: u8, payload: Seq<u8>)
    requires
        payload.len() <= MAX_PAYLOAD,
    ensures
        ({
            let frame = spec_frame(cmd, payload);
            &&& forall|k: int| 0 <= k < frame.len() - 1 ==>
                (#[trigger] spec_rx_step(phase_after(RxPhase::Hunt, frame.take(k)), Some(frame[k]))).1
                    == RxSignal::AwaitNext
            &&& spec_rx_step(phase_after(RxPhase::Hunt, frame.drop_last()), Some(frame.last()))
                == (RxPhase::Hunt, RxSignal::Deliver { cmd, payload })
        }),
{
    let frame = spec_frame(cmd, payload);
    let n = frame.len() as int;
    assert forall|k: int| 0 <= k < n - 1 implies
        (#[trigger] spec_rx_step(phase_after(RxPhase::Hunt, frame.take(k)), Some(frame[k]))).1
            == RxSignal::AwaitNext by {
        lemma_frame_progress(cmd, payload, k);
    }
    lemma_frame_progress(cmd, payload, n - 1);
    assert(frame.drop_last() =~= frame.take(n - 1));
    assert(frame.last() == spec_checksum(cmd, payload.len() as u8, payload));
}

/// Bytes other than the first start byte leave a hunting receiver hunting.
pub proof fn lemma_noise_keeps_hunting(noise: Seq<u8>)
    requires
        forall|i: int| 0 <= i < noise.len() ==> noise[i] != FRAME_SOF0,
    ensures
        phase_after(RxPhase::Hunt, noise) == RxPhase::Hunt,
    decreases noise.len(),
{
    if noise.len() > 0 {
        lemma_noise_keeps_hunting(noise.drop_last());
    }
}

/// A frame is still received whole after any run of bytes that holds no first
/// start byte: line noise before a reply does not lose the reply.
pub proof fn lemma_frame_after_noise(noise: Seq<u8>, cmd: u8, payload: Seq<u8>)
    requires
        payload.len() <= MAX_PAYLOAD,
        forall|i: int| 0 <= i < noise.len() ==> noise[i] != FRAME_SOF0,
    ensures
        ({
            let stream = noise + spec_frame(cmd, payload);
            spec_rx_step(phase_after(RxPhase::Hunt, stream.drop_last()), Some(stream.last()))
                == (RxPhase::Hunt, RxSignal::Deliver { cmd, payload })
        }),
{
    let frame = spec_frame(cmd, payload);
    let stream = noise + frame;
    assert(stream.drop_last() =~= noise + frame.drop_last());
    lemma_phase_after_concat(RxPhase::Hunt, noise, frame.drop_last());
    lemma_noise_keeps_hunting(noise);
    lemma_frame_round_trip(cmd, payload);
}

// ---------------------------------------------------------------------------
// What the receiver delivers
// ---------------------------------------------------------------------------

/// The phase the receiver reaches from `p` when it is fed `events`: bytes that
/// came (`Some`) and reads that timed out (`None`), in order.
pub open spec fn phase_after_events(p: RxPhase, events: Seq<Option<u8>>) -> RxPhase
    decreases events.len(),
{
    if events.len() == 0 {
        p
    } else {
        spec_rx_step(phase_after_events(p, events.drop_last()), events.last()).0
    }
}

/// Bytes as reads that each came in time.
pub open spec fn in_time(bytes: Seq<u8>) -> Seq<Option<u8>> {
    bytes.map_values(|b: u8| Some(b))
}

/// Whether `s` ends with `tail`.
pub open spec fn ends_with(s: Seq<Option<u8>>, tail: Seq<Option<u8>>) -> bool {
    tail.len() <= s.len() && s.subrange(s.len() - tail.len(), s.len() as int) == tail
}

/// The bytes of the current frame that a receiver in phase `p` has taken.
pub open spec fn phase_taken(p: RxPhase) -> Seq<u8> {
    match p {
        RxPhase::Hunt => Seq::empty(),
        RxPhase::Sync => seq![FRAME_SOF0],
        RxPhase::Command => seq![FRAME_SOF0, FRAME_SOF1],
        RxPhase::Length { cmd } => seq![FRAME_SOF0, FRAME_SOF1, cmd],
        RxPhase::Payload { cmd, len, data } => seq![FRAME_SOF0, FRAME_SOF1, cmd, len] + data,
        RxPhase::Checksum { cmd, len, data } => seq![FRAME_SOF0, FRAME_SOF1, cmd, len] + data,
    }
}

/// Whether the payload collected so far fits the announced length: short of it
/// while collecting, equal to it once the checksum is due.
pub open spec fn phase_consistent(p: RxPhase) -> bool {
    match p {
        RxPhase::Payload { len, data, .. } => data.len() < len,
        RxPhase::Checksum { len, data, .. } => data.len() == len,
        _ => true,
    }
}

proof fn lemma_ends_with_push(s: Seq<Option<u8>>, tail: Seq<u8>, b: u8)
    requires
        ends_with(s, in_time(tail)),
    ensures
        ends_with(s.push(Some(b)), in_time(tail.push(b))),
{
    let longer = s.push(Some(b));
    assert(in_time(tail.push(b)) =~= in_time(tail).push(Some(b)));
    assert(longer.subrange(longer.len() - (tail.len() + 1), longer.len() as int) =~= s.subrange(
        s.len() - tail.len(),
        s.len() as int,
    ).push(Some(b)));
}

proof fn lemma_events_invariant(events: Seq<Option<u8>>)
    ensures
        phase_consistent(phase_after_events(RxPhase::Hunt, events)),
        ends_with(events, in_time(phase_taken(phase_after_events(RxPhase::Hunt, events)))),
    decreases events.len(),
{
    let p = phase_after_events(RxPhase::Hunt, events);
    if events.len() == 0 {
        assert(in_time(phase_taken(p)) =~= Seq::<Option<u8>>::empty());
        assert(events.subrange(0, 0) =~= Seq::<Option<u8>>::empty());
    } else {
        let before = events.drop_last();
        let e = events.last();
        let q = phase_after_events(RxPhase::Hunt, before);
        lemma_events_invariant(before);
        assert(events =~= before.push(e));
        if p is Hunt {
            assert(in_time(phase_taken(p)) =~= Seq::<Option<u8>>::empty());
            assert(events.subrange(events.len() as int, events.len() as int) =~= Seq::<Option<u8>>::empty());
        } else {
            let b = e.unwrap();
            assert(e == Some(b));
            lemma_ends_with_push(before, phase_taken(q), b);
            match q {
                RxPhase::Hunt => {
                    assert(phase_taken(q).push(b) =~= phase_taken(p));
                },
                RxPhase::Sync => {
                    assert(phase_taken(q).push(b) =~= phase_taken(p));
                },
                RxPhase::Command => {
                    assert(phase_taken(q).push(b) =~= phase_taken(p));
                },
                RxPhase::Length { cmd } => {
                    assert(phase_taken(q).push(b) =~= phase_taken(p));
                },
                RxPhase::Payload { cmd, len, data } => {
                    assert(phase_taken(q).push(b) =~= phase_taken(p));
                },
                RxPhase::Checksum { .. } => {},
            }
        }
    }
}

/// The receiver delivers only what it has read: a delivered frame is exactly
/// the last bytes it was fed, each in time, and its checksum matches; its
/// payload fits the length byte.
pub proof fn lemma_delivery_sound(events: Seq<Option<u8>>, e: Option<u8>)
    ensures
        match spec_rx_step(phase_after_events(RxPhase::Hunt, events), e).1 {
            RxSignal::Deliver { cmd, payload } => {
                &&& payload.len() <= MAX_PAYLOAD
                &&& ends_with(events.push(e), in_time(spec_frame(cmd, payload)))
            },
            _ => true,
        },
{
    let q = phase_after_events(RxPhase::Hunt, events);
    lemma_events_invariant(events);
    match spec_rx_step(q, e).1 {
        RxSignal::Deliver { cmd, payload } => {
            let k = e.unwrap();
            if let RxPhase::Checksum { cmd: c, len, data } = q {
                assert(c == cmd && data == payload);
                assert(e == Some(k) && k == spec_checksum(cmd, len, data));
                assert(len == payload.len() as u8);
                lemma_ends_with_push(events, phase_taken(q), k);
                assert(phase_taken(q).push(k) =~= spec_frame(cmd, payload));
            }
        },
        _ => {},
    }
}

} // verus!
