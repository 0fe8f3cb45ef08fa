//! The serial (USB-CDC) camera source and its framing protocol.
//!
//! A frame on the wire is the four magic bytes `FF A0 FF A1`, the payload
//! length as a little-endian `u16`, and then that many payload bytes (a JPEG
//! image). While it waits for a frame, the framer keeps a rolling window of
//! the last six bytes. When the first four bytes of the window are the
//! magic, the last two give the length of the payload that follows, and the
//! framer starts collecting. While it collects, every byte is appended to
//! the payload, whatever it is, and the payload is handed out as soon as it
//! has reached its length. The framer then waits again, with an empty
//! window: no byte of a frame counts towards the next header.

use vstd::prelude::*;

verus! {

/// The serial line runs at 3,000,000 baud, 8 data bits, no parity, 1 stop bit.
pub const BAUD_RATE: u32 = 3000000;

/// The largest packet that one USB-CDC read returns.
pub const USB_SERIAL_MAX_PACKET_SIZE: usize = 64;

/// The length of a frame header: four magic bytes and two length bytes.
pub const HEADER_LEN: usize = 6;

/// A camera behind a serial port.
#[derive(Clone, Debug)]
pub struct SerialCameraSource {}

/// Whether `window`, six bytes long, starts with the magic `FF A0 FF A1`.
pub open spec fn is_header(window: Seq<u8>) -> bool {
    &&& window[0] == 0xFF
    &&& window[1] == 0xA0
    &&& window[2] == 0xFF
    &&& window[3] == 0xA1
}

/// The payload length that the header in `window` announces: its last two
/// bytes, little-endian.
pub open spec fn announced_len(window: Seq<u8>) -> nat {
    (window[4] as nat) + 256 * (window[5] as nat)
}

/// The window after `byte` has arrived: the oldest byte leaves.
pub open spec fn shifted(window: Seq<u8>, byte: u8) -> Seq<u8> {
    window.subrange(1, 6).push(byte)
}

/// The state of the framer, as plain values.
pub struct FramerState {
    /// The last six bytes seen since the framer began to wait, oldest
    /// first; zero where fewer have arrived, and while it collects.
    pub window: Seq<u8>,
    /// The length of the payload being collected, `None` while the framer
    /// waits for a header.
    pub expecting: Option<nat>,
    /// The payload bytes collected so far; empty while waiting.
    pub collected: Seq<u8>,
}

/// The state in which the framer waits with an empty window: before any
/// byte has arrived, and after every payload.
pub open spec fn initial_state() -> FramerState {
    FramerState { window: Seq::new(6, |i: int| 0u8), expecting: None, collected: Seq::empty() }
}

/// One step of the framer: the state after `byte`, and the payload that this
/// byte completes, if it completes one. While a payload is collected the
/// byte is appended to it; a header is looked for only while waiting.
pub open spec fn step(state: FramerState, byte: u8) -> (FramerState, Option<Seq<u8>>) {
    match state.expecting {
        Some(len) => {
            let collected = state.collected.push(byte);
            if collected.len() == len {
                (initial_state(), Some(collected))
            } else {
                (FramerState { window: state.window, expecting: Some(len), collected }, None)
            }
        },
        None => {
            let window = shifted(state.window, byte);
            if !is_header(window) {
                (FramerState { window, expecting: None, collected: Seq::empty() }, None)
            } else if announced_len(window) == 0 {
                (initial_state(), Some(Seq::empty()))
            } else {
                (
                    FramerState {
                        window: initial_state().window,
                        expecting: Some(announced_len(window)),
                        collected: Seq::empty(),
                    },
                    None,
                )
            }
        },
    }
}

/// The state after the first `k` bytes of `bytes` have gone through the
/// framer, starting from `state`.
pub open spec fn state_after(state: FramerState, bytes: Seq<u8>, k: int) -> FramerState
    decreases k,
{
    if k <= 0 {
        state
    } else {
        step(state_after(state, bytes, k - 1), bytes[k - 1]).0
    }
}

/// The payload that byte `k - 1` of `bytes` completes, if any.
pub open spec fn emitted_at(state: FramerState, bytes: Seq<u8>, k: int) -> Option<Seq<u8>> {
    step(state_after(state, bytes, k - 1), bytes[k - 1]).1
}

/// The payloads that the first `k` bytes of `bytes` complete, in the order in
/// which they are completed.
pub open spec fn payloads_after(state: FramerState, bytes: Seq<u8>, k: int) -> Seq<Seq<u8>>
    decreases k,
{
    if k <= 0 {
        Seq::empty()
    } else {
        match emitted_at(state, bytes, k) {
            Some(payload) => payloads_after(state, bytes, k - 1).push(payload),
            None => payloads_after(state, bytes, k - 1),
        }
    }
}

/// The views of a list of payloads.
pub open spec fn payload_views(payloads: Seq<Vec<u8>>) -> Seq<Seq<u8>> {
    Seq::new(payloads.len(), |i: int| payloads[i]@)
}

/// Cuts a serial byte stream into frame payloads, one byte at a time.
pub struct SerialFramer {
    last_bytes: [u8; 6],
    collecting: bool,
    image_size: usize,
    image_data: Vec<u8>,
}

impl View for SerialFramer {
    type V = FramerState;

    closed spec fn view(&self) -> FramerState {
        FramerState {
            window: self.last_bytes@,
            expecting: if self.collecting {
                Some(self.image_size as nat)
            } else {
                None
            },
            collected: self.image_data@,
        }
    }
}

impl SerialFramer {
    #[verifier::type_invariant]
    spec fn well_formed(self) -> bool {
        &&& self.collecting ==> self.image_data@.len() < self.image_size
        &&& self.collecting ==> self.last_bytes@ == initial_state().window
        &&& !self.collecting ==> self.image_data@.len() == 0
        &&& self.image_size <= 0xFFFF
    }

    /// A framer that has seen no byte yet.
    pub fn new() -> (framer: SerialFramer)
        ensures
            framer@ == initial_state(),
    {
        let framer = SerialFramer {
            last_bytes: [0u8; 6],
            collecting: false,
            image_size: 0,
            image_data: Vec::new(),
        };
        assert(framer.last_bytes@ =~= initial_state().window);
        framer
    }

    /// Whether the framer is inside a payload.
    pub fn is_collecting(&self) -> (collecting: bool)
        ensures
            collecting == self@.expecting.is_some(),
    {
        self.collecting
    }

    /// Takes in one byte of the stream. Returns the payload that this byte
    /// completes, if it completes one.
    pub fn push(&mut self, byte: u8) -> (payload: Option<Vec<u8>>)
        ensures
            final(self)@ == step(old(self)@, byte).0,
            match payload {
                Some(data) => step(old(self)@, byte).1 == Some(data@),
                None => step(old(self)@, byte).1.is_none(),
            },
    {
        proof {
            use_type_invariant(&*self);
        }
        let empty: [u8; 6] = [0u8; 6];
        assert(empty@ =~= initial_state().window);
        if self.collecting {
            let size = self.image_size;
            let mut data = Vec::new();
            core::mem::swap(&mut data, &mut self.image_data);
            data.push(byte);
            if data.len() == size {
                *self = SerialFramer {
                    last_bytes: empty,
                    collecting: false,
                    image_size: 0,
                    image_data: Vec::new(),
                };
                Some(data)
            } else {
                *self = SerialFramer {
                    last_bytes: empty,
                    collecting: true,
                    image_size: size,
                    image_data: data,
                };
                None
            }
        } else {
            let w = &self.last_bytes;
            let window: [u8; 6] = [w[1], w[2], w[3], w[4], w[5], byte];
            assert(window@ =~= shifted(self.last_bytes@, byte));
            if !(window[0] == 0xFF && window[1] == 0xA0 && window[2] == 0xFF && window[3] == 0xA1) {
                *self = SerialFramer {
                    last_bytes: window,
                    collecting: false,
                    image_size: 0,
                    image_data: Vec::new(),
                };
                return None;
            }
            let size: usize = (window[4] as usize) + 256 * (window[5] as usize);
            if size == 0 {
                *self = SerialFramer {
                    last_bytes: empty,
                    collecting: false,
                    image_size: 0,
                    image_data: Vec::new(),
                };
                Some(Vec::new())
            } else {
                *self = SerialFramer {
                    last_bytes: empty,
                    collecting: true,
                    image_size: size,
                    image_data: Vec::new(),
                };
                None
            }
        }
    }

    /// Takes in a run of bytes. Returns the payloads that these bytes
    /// complete, in the order in which they are completed.
    pub fn feed(&mut self, bytes: &[u8]) -> (payloads: Vec<Vec<u8>>)
        ensures
            final(self)@ == state_after(old(self)@, bytes@, bytes@.len() as int),
            payload_views(payloads@) == payloads_after(old(self)@, bytes@, bytes@.len() as int),
    {
        let mut payloads: Vec<Vec<u8>> = Vec::new();
        let mut k: usize = 0;
        assert(payload_views(payloads@) =~= payloads_after(self@, bytes@, 0));
        while k < bytes.len()
            invariant
                k <= bytes@.len(),
                self@ == state_after(old(self)@, bytes@, k as int),
                payload_views(payloads@) == payloads_after(old(self)@, bytes@, k as int),
            decreases bytes@.len() - k,
        {
            let ghost before = payloads@;
            let emitted = self.push(bytes[k]);
            k += 1;
            match emitted {
                Some(data) => {
                    payloads.push(data);
                    assert(payload_views(payloads@) =~= payload_views(before).push(data@));
                },
                None => {},
            }
        }
        payloads
    }
}

proof fn lemma_state_after_piece(state: FramerState, first: Seq<u8>, second: Seq<u8>, k: int)
    requires
        0 <= k <= second.len(),
    ensures
        state_after(state, first + second, first.len() + k) == state_after(
            state_after(state, first, first.len() as int),
            second,
            k,
        ),
        payloads_after(state, first + second, first.len() + k) == payloads_after(
            state,
            first,
            first.len() as int,
        ) + payloads_after(state_after(state, first, first.len() as int), second, k),
    decreases k,
{
    let whole = first + second;
    let middle = state_after(state, first, first.len() as int);
    if k == 0 {
        lemma_prefix_decides(state, first, whole, first.len() as int);
        assert(payloads_after(state, first, first.len() as int) + Seq::<Seq<u8>>::empty()
            =~= payloads_after(state, first, first.len() as int));
    } else {
        lemma_state_after_piece(state, first, second, k - 1);
        assert(whole[first.len() + k - 1] == second[k - 1]);
        let before = payloads_after(state, first, first.len() as int);
        let so_far = payloads_after(middle, second, k - 1);
        match emitted_at(middle, second, k) {
            Some(payload) => {
                assert((before + so_far).push(payload) =~= before + so_far.push(payload));
            },
            None => {},
        }
    }
}

proof fn lemma_prefix_decides(state: FramerState, a: Seq<u8>, b: Seq<u8>, k: int)
    requires
        0 <= k <= a.len(),
        k <= b.len(),
        forall|i: int| 0 <= i < k ==> a[i] == b[i],
    ensures
        state_after(state, a, k) == state_after(state, b, k),
        payloads_after(state, a, k) == payloads_after(state, b, k),
    decreases k,
{
    if k > 0 {
        lemma_prefix_decides(state, a, b, k - 1);
    }
}

/// The framer works on a stream however it is cut into pieces: taking in
/// two pieces one after the other leaves it in the state, and gives the
/// payloads, of taking them in as one.
pub proof fn lemma_pieces_give_what_the_whole_gives(state: FramerState, first: Seq<u8>, second: Seq<u8>)
    ensures
        state_after(state, first + second, (first + second).len() as int) == state_after(
            state_after(state, first, first.len() as int),
            second,
            second.len() as int,
        ),
        payloads_after(state, first + second, (first + second).len() as int) == payloads_after(
            state,
            first,
            first.len() as int,
        ) + payloads_after(
            state_after(state, first, first.len() as int),
            second,
            second.len() as int,
        ),
{
    lemma_state_after_piece(state, first, second, second.len() as int);
}

// ---------------------------------------------------------------------------
// What the framer makes of a stream that embeds frames
// ---------------------------------------------------------------------------

/// Whether the magic stands at position `i` of `bytes`.
pub open spec fn magic_at(bytes: Seq<u8>, i: int) -> bool {
    &&& 0 <= i
    &&& i + 4 <= bytes.len()
    &&& bytes[i] == 0xFF
    &&& bytes[i + 1] == 0xA0
    &&& bytes[i + 2] == 0xFF
    &&& bytes[i + 3] == 0xA1
}

/// Whether `bytes` are free of the magic.
pub open spec fn without_magic(bytes: Seq<u8>) -> bool {
    forall|i: int| !magic_at(bytes, i)
}

/// The bytes of a frame on the wire: the magic, the length of the payload,
/// little-endian, and the payload.
pub open spec fn frame_bytes(payload: Seq<u8>) -> Seq<u8> {
    seq![
        0xFFu8,
        0xA0u8,
        0xFFu8,
        0xA1u8,
        (payload.len() % 256) as u8,
        (payload.len() / 256) as u8,
    ] + payload
}

/// A frame as it is embedded in a stream: the garbage that stands before
/// it, and its payload.
pub struct EmbeddedFrame {
    pub garbage: Seq<u8>,
    pub payload: Seq<u8>,
}

/// The stream that embeds `frames` one after the other, each behind its
/// garbage.
pub open spec fn stream_of(frames: Seq<EmbeddedFrame>) -> Seq<u8>
    decreases frames.len(),
{
    if frames.len() == 0 {
        Seq::empty()
    } else {
        stream_of(frames.drop_last()) + frames.last().garbage + frame_bytes(frames.last().payload)
    }
}

/// The payloads of `frames`.
pub open spec fn payloads_in(frames: Seq<EmbeddedFrame>) -> Seq<Seq<u8>> {
    Seq::new(frames.len(), |j: int| frames[j].payload)
}

/// The window of a framer that has waited through `k` bytes of `bytes`.
spec fn window_at(bytes: Seq<u8>, k: int) -> Seq<u8> {
    Seq::new(
        6,
        |j: int|
            if k - 6 + j >= 0 {
                bytes[k - 6 + j]
            } else {
                0u8
            },
    )
}

/// The state of a framer that has waited through `k` bytes of `bytes`.
spec fn waiting_at(bytes: Seq<u8>, k: int) -> FramerState {
    FramerState { window: window_at(bytes, k), expecting: None, collected: Seq::empty() }
}

/// Garbage makes the framer wait on: it hands out nothing.
proof fn lemma_garbage_gives_nothing(garbage: Seq<u8>, k: int)
    requires
        without_magic(garbage),
        0 <= k <= garbage.len(),
    ensures
        state_after(initial_state(), garbage, k) == waiting_at(garbage, k),
        payloads_after(initial_state(), garbage, k) == Seq::<Seq<u8>>::empty(),
    decreases k,
{
    if k == 0 {
        assert(window_at(garbage, 0) =~= initial_state().window);
    } else {
        lemma_garbage_gives_nothing(garbage, k - 1);
        let window = shifted(window_at(garbage, k - 1), garbage[k - 1]);
        assert(window =~= window_at(garbage, k));
        if is_header(window) {
            assert(magic_at(garbage, k - 6));
        }
    }
}

/// The header of a frame behind garbage makes the framer collect, or hand
/// out the empty payload at once; no byte before the last one of the header
/// does.
proof fn lemma_header_starts_collecting(garbage: Seq<u8>, payload: Seq<u8>)
    requires
        without_magic(garbage),
        payload.len() <= 0xFFFF,
    ensures
        ({
            let start = waiting_at(garbage, garbage.len() as int);
            let frame = frame_bytes(payload);
            &&& state_after(start, frame, 6) == if payload.len() == 0 {
                initial_state()
            } else {
                FramerState {
                    window: initial_state().window,
                    expecting: Some(payload.len()),
                    collected: Seq::empty(),
                }
            }
            &&& payloads_after(start, frame, 6) == if payload.len() == 0 {
                seq![Seq::<u8>::empty()]
            } else {
                Seq::<Seq<u8>>::empty()
            }
        }),
{
    let n = garbage.len() as int;
    let start = waiting_at(garbage, n);
    let frame = frame_bytes(payload);
    let joined = garbage + frame;
    reveal_with_fuel(state_after, 7);
    reveal_with_fuel(payloads_after, 7);
    let w0 = window_at(garbage, n);
    let w1 = shifted(w0, frame[0]);
    let w2 = shifted(w1, frame[1]);
    let w3 = shifted(w2, frame[2]);
    let w4 = shifted(w3, frame[3]);
    let w5 = shifted(w4, frame[4]);
    let w6 = shifted(w5, frame[5]);
    assert(!is_header(w1)) by {
        if is_header(w1) {
            assert(magic_at(garbage, n - 5));
        }
    }
    assert(!is_header(w2)) by {
        if is_header(w2) {
            assert(magic_at(garbage, n - 4));
        }
    }
    assert(!is_header(w3));
    assert(!is_header(w4));
    assert(!is_header(w5));
    assert(is_header(w6));
    assert(announced_len(w6) == payload.len());
    assert(state_after(start, frame, 1) == FramerState {
        window: w1,
        expecting: None,
        collected: Seq::empty(),
    });
    assert(state_after(start, frame, 2) == FramerState {
        window: w2,
        expecting: None,
        collected: Seq::empty(),
    });
    assert(state_after(start, frame, 3) == FramerState {
        window: w3,
        expecting: None,
        collected: Seq::empty(),
    });
    assert(state_after(start, frame, 4) == FramerState {
        window: w4,
        expecting: None,
        collected: Seq::empty(),
    });
    assert(state_after(start, frame, 5) == FramerState {
        window: w5,
        expecting: None,
        collected: Seq::empty(),
    });
    assert(payloads_after(start, frame, 5) =~= Seq::<Seq<u8>>::empty());
    if payload.len() == 0 {
        assert(payloads_after(start, frame, 6) =~= seq![Seq::<u8>::empty()]);
    }
}

/// A framer that collects a payload takes it in byte by byte, whatever the
/// bytes are, and hands it out with its last byte.
proof fn lemma_payload_is_collected(start: FramerState, payload: Seq<u8>, frame: Seq<u8>, k: int)
    requires
        frame == frame_bytes(payload),
        payload.len() > 0,
        state_after(start, frame, 6) == (FramerState {
            window: initial_state().window,
            expecting: Some(payload.len()),
            collected: Seq::empty(),
        }),
        payloads_after(start, frame, 6) == Seq::<Seq<u8>>::empty(),
        0 <= k <= payload.len(),
    ensures
        state_after(start, frame, 6 + k) == if k == payload.len() {
            initial_state()
        } else {
            FramerState {
                window: initial_state().window,
                expecting: Some(payload.len()),
                collected: payload.subrange(0, k),
            }
        },
        payloads_after(start, frame, 6 + k) == if k == payload.len() {
            seq![payload]
        } else {
            Seq::<Seq<u8>>::empty()
        },
    decreases k,
{
    if k == 0 {
        assert(payload.subrange(0, 0) =~= Seq::<u8>::empty());
    } else {
        lemma_payload_is_collected(start, payload, frame, k - 1);
        assert(frame[6 + k - 1] == payload[k - 1]);
        assert(payload.subrange(0, k - 1).push(payload[k - 1]) =~= payload.subrange(0, k));
        if k == payload.len() {
            assert(payload.subrange(0, k) =~= payload);
            assert(payloads_after(start, frame, 6 + k) =~= seq![payload]);
        }
    }
}

/// A frame behind garbage is handed out whole, and leaves the framer as it
/// was at the start.
proof fn lemma_frame_behind_garbage(garbage: Seq<u8>, payload: Seq<u8>)
    requires
        without_magic(garbage),
        payload.len() <= 0xFFFF,
    ensures
        ({
            let piece = garbage + frame_bytes(payload);
            &&& state_after(initial_state(), piece, piece.len() as int) == initial_state()
            &&& payloads_after(initial_state(), piece, piece.len() as int) == seq![payload]
        }),
{
    let frame = frame_bytes(payload);
    let start = waiting_at(garbage, garbage.len() as int);
    lemma_garbage_gives_nothing(garbage, garbage.len() as int);
    lemma_header_starts_collecting(garbage, payload);
    if payload.len() > 0 {
        lemma_payload_is_collected(start, payload, frame, payload.len() as int);
    }
    let piece = garbage + frame;
    assert(frame.len() == 6 + payload.len());
    assert(state_after(initial_state(), garbage, garbage.len() as int) == start);
    assert(state_after(start, frame, frame.len() as int) == initial_state());
    assert(payloads_after(start, frame, frame.len() as int) =~= seq![payload]) by {
        if payload.len() == 0 {
            assert(payload =~= Seq::<u8>::empty());
        }
    }
    lemma_pieces_give_what_the_whole_gives(initial_state(), garbage, frame);
    assert(Seq::<Seq<u8>>::empty() + seq![payload] =~= seq![payload]);
    assert(piece.len() == garbage.len() + frame.len());
}

proof fn lemma_frames_come_out(frames: Seq<EmbeddedFrame>)
    requires
        forall|j: int|
            0 <= j < frames.len() ==> (#[trigger] frames[j]).payload.len() <= 0xFFFF
                && without_magic(frames[j].garbage),
    ensures
        state_after(initial_state(), stream_of(frames), stream_of(frames).len() as int)
            == initial_state(),
        payloads_after(initial_state(), stream_of(frames), stream_of(frames).len() as int)
            == payloads_in(frames),
    decreases frames.len(),
{
    if frames.len() == 0 {
        assert(payloads_in(frames) =~= Seq::<Seq<u8>>::empty());
    } else {
        let front = frames.drop_last();
        let last = frames.last();
        let piece = last.garbage + frame_bytes(last.payload);
        lemma_frames_come_out(front);
        lemma_frame_behind_garbage(last.garbage, last.payload);
        assert(stream_of(frames) =~= stream_of(front) + piece);
        lemma_pieces_give_what_the_whole_gives(initial_state(), stream_of(front), piece);
        assert(payloads_in(front) + seq![last.payload] =~= payloads_in(frames));
    }
}

/// A stream that embeds any number of frames, each behind garbage, and more
/// garbage at its end, makes the framer hand out exactly the payloads of
/// these frames, byte for byte and in their order, whatever the payloads
/// hold. Garbage is what is free of the magic.
pub proof fn lemma_embedded_payloads_come_out_in_order(frames: Seq<EmbeddedFrame>, tail: Seq<u8>)
    requires
        forall|j: int|
            0 <= j < frames.len() ==> (#[trigger] frames[j]).payload.len() <= 0xFFFF
                && without_magic(frames[j].garbage),
        without_magic(tail),
    ensures
        payloads_after(
            initial_state(),
            stream_of(frames) + tail,
            (stream_of(frames) + tail).len() as int,
        ) == payloads_in(frames),
{
    lemma_frames_come_out(frames);
    lemma_garbage_gives_nothing(tail, tail.len() as int);
    lemma_pieces_give_what_the_whole_gives(initial_state(), stream_of(frames), tail);
    assert(payloads_in(frames) + Seq::<Seq<u8>>::empty() =~= payloads_in(frames));
}

} // verus!
