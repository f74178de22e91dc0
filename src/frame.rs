//! The 32-byte frame: its layout, decoding and encoding.

use vstd::prelude::*;

use crate::event::{words_of, Event, BUTTON_PRESS, BUTTON_RELEASE, MOTION};
use crate::wire::{encode_i32, field_at, i32_le_bytes, le_i32, lemma_i32_le_round_trip, FIELD_LEN};

verus! {

/// Length in bytes of every frame.
pub const FRAME_LEN: usize = 32;

/// Field `i` of frame `f`: bytes `[4 * i, 4 * i + 4)` read as a little-endian
/// signed integer. Field 0 is the tag.
pub open spec fn field(f: Seq<u8>, i: int) -> i32 {
    le_i32(f.subrange(4 * i, 4 * i + 4))
}

/// What a sequence of bytes decodes to. Anything but a full frame is no
/// event; so is a frame whose tag is not one of the three known ones. A
/// button frame's fields after the id are ignored.
pub open spec fn event_of(f: Seq<u8>) -> Option<Event> {
    if f.len() != FRAME_LEN {
        None
    } else if field(f, 0) == MOTION {
        Some(
            Event::Motion {
                x: field(f, 1),
                y: field(f, 2),
                z: field(f, 3),
                rx: field(f, 4),
                ry: field(f, 5),
                rz: field(f, 6),
                period: field(f, 7),
            },
        )
    } else if field(f, 0) == BUTTON_PRESS {
        Some(Event::ButtonPress(field(f, 1)))
    } else if field(f, 0) == BUTTON_RELEASE {
        Some(Event::ButtonRelease(field(f, 1)))
    } else {
        None
    }
}

/// The bytes that carry the fields `w` in order, four per field.
pub open spec fn words_le_bytes(w: Seq<i32>) -> Seq<u8> {
    Seq::new(4 * w.len(), |k: int| i32_le_bytes(w[k / 4])[k % 4])
}

/// The frame that carries `e`.
pub open spec fn frame_of(e: Event) -> Seq<u8> {
    words_le_bytes(words_of(e))
}

/// Decodes one frame. A buffer that is not exactly one frame long (a short
/// read, or nothing read at all) gives `None`, never a partial event; so does
/// a frame with an unknown tag.
pub fn decode(frame: &[u8]) -> (r: Option<Event>)
    ensures
        r == event_of(frame@),
        frame@.len() != FRAME_LEN ==> r is None,
{
    if frame.len() != FRAME_LEN {
        return None;
    }
    let tag = field_at(frame, 0);
    if tag == MOTION {
        Some(
            Event::Motion {
                x: field_at(frame, 4),
                y: field_at(frame, 8),
                z: field_at(frame, 12),
                rx: field_at(frame, 16),
                ry: field_at(frame, 20),
                rz: field_at(frame, 24),
                period: field_at(frame, 28),
            },
        )
    } else if tag == BUTTON_PRESS {
        Some(Event::ButtonPress(field_at(frame, 4)))
    } else if tag == BUTTON_RELEASE {
        Some(Event::ButtonRelease(field_at(frame, 4)))
    } else {
        None
    }
}

impl Event {
    /// The frame that carries this event, in the layout that [`decode`] reads.
    pub fn to_frame(&self) -> (r: Vec<u8>)
        ensures
            r@ == frame_of(*self),
            r@.len() == FRAME_LEN,
    {
        let words = self.words();
        let mut r: Vec<u8> = Vec::new();
        let mut i: usize = 0;
        while i < words.len()
            invariant
                words@ == words_of(*self),
                words@.len() == 8,
                0 <= i <= 8,
                r@.len() == 4 * i,
                forall|k: int| 0 <= k < 4 * i ==> #[trigger] r@[k] == i32_le_bytes(words@[k / 4])[k % 4],
            decreases 8 - i,
        {
            let b = encode_i32(words[i]);
            let ghost before = r@;
            let mut j: usize = 0;
            while j < FIELD_LEN
                invariant
                    b@ == i32_le_bytes(words@[i as int]),
                    b@.len() == 4,
                    0 <= i < 8,
                    0 <= j <= 4,
                    r@.len() == 4 * i + j,
                    r@.subrange(0, 4 * i) == before,
                    forall|k: int| 4 * i <= k < 4 * i + j ==> #[trigger] r@[k] == b@[k - 4 * i],
                decreases 4 - j,
            {
                r.push(b[j]);
                j = j + 1;
                assert(r@.subrange(0, 4 * i) =~= before);
            }
            assert forall|k: int| 0 <= k < 4 * i + 4 implies #[trigger] r@[k] == i32_le_bytes(words@[k / 4])[k % 4] by {
                if k < 4 * i {
                    assert(r@[k] == before[k]);
                } else {
                    assert(k / 4 == i);
                    assert(k % 4 == k - 4 * i);
                }
            }
            i = i + 1;
        }
        assert(r@ =~= frame_of(*self));
        r
    }
}

/// Field `i` of the bytes that carry `w` is `w[i]`.
pub proof fn lemma_field_of_words(w: Seq<i32>, i: int)
    requires
        0 <= i < w.len(),
    ensures
        field(words_le_bytes(w), i) == w[i],
{
    let b = words_le_bytes(w).subrange(4 * i, 4 * i + 4);
    assert forall|j: int| 0 <= j < 4 implies #[trigger] b[j] == i32_le_bytes(w[i])[j] by {
        assert((4 * i + j) / 4 == i);
        assert((4 * i + j) % 4 == j);
    }
    lemma_i32_le_round_trip(w[i]);
    assert(b =~= i32_le_bytes(w[i]));
}

/// Encoding an event into a frame and decoding that frame gives the event back.
pub proof fn lemma_decode_to_frame(e: Event)
    ensures
        frame_of(e).len() == FRAME_LEN,
        event_of(frame_of(e)) == Some(e),
{
    let w = words_of(e);
    let f = frame_of(e);
    assert forall|i: int| 0 <= i < 8 implies #[trigger] field(f, i) == w[i] by {
        lemma_field_of_words(w, i);
    }
}

/// A button frame is decoded from its tag and id alone: two frames that agree
/// on their first eight bytes and carry a button tag decode to the same event,
/// whatever their remaining bytes hold.
pub proof fn lemma_button_ignores_tail(f: Seq<u8>, g: Seq<u8>)
    requires
        f.len() == FRAME_LEN,
        g.len() == FRAME_LEN,
        f.subrange(0, 8) == g.subrange(0, 8),
        field(f, 0) == BUTTON_PRESS || field(f, 0) == BUTTON_RELEASE,
    ensures
        event_of(f) == event_of(g),
{
    assert(f.subrange(0, 4) =~= f.subrange(0, 8).subrange(0, 4));
    assert(g.subrange(0, 4) =~= g.subrange(0, 8).subrange(0, 4));
    assert(f.subrange(4, 8) =~= f.subrange(0, 8).subrange(4, 8));
    assert(g.subrange(4, 8) =~= g.subrange(0, 8).subrange(4, 8));
}

} // verus!
