//! The tag decoder: accumulates digit keystrokes into a tag string.
//!
//! The scanner types a tag as a sequence of digit keys followed by the
//! terminator key (enter).  The decoder watches key-release transitions,
//! collects digit characters, and emits the collected string when the
//! terminator is released.

use vstd::prelude::*;
use vstd::string::StringExecFns;

use crate::keys::{digit_of, is_key_release, InputEvent, EV_KEY, KEY_0, KEY_1, KEY_2, KEY_3, KEY_4, KEY_5,
    KEY_6, KEY_7, KEY_8, KEY_9, KEY_ENTER};

verus! {

/// One step of the tag accumulator: from the buffered characters and one raw
/// event to the new buffer and the emitted tag, if any.
///
/// Presses and repeats are ignored.  A released terminator key emits the
/// buffer and clears it; a released digit key appends its character; any
/// other released key is a no-op.
pub open spec fn tag_step(buf: Seq<char>, ev: InputEvent) -> (Seq<char>, Option<Seq<char>>) {
    if !is_key_release(ev) {
        (buf, None)
    } else if ev.code == KEY_ENTER {
        (Seq::<char>::empty(), Some(buf))
    } else {
        match digit_of(ev.code) {
            Some(c) => (buf.push(c), None),
            None => (buf, None),
        }
    }
}

/// Whether an event leaves the accumulator without an emitted tag: anything
/// but a release of the terminator key.
pub open spec fn emits_no_tag(ev: InputEvent) -> bool {
    !(is_key_release(ev) && ev.code == KEY_ENTER)
}

/// The digit character one event contributes to the buffer, as a sequence of
/// length zero or one.
pub open spec fn event_digit(ev: InputEvent) -> Seq<char> {
    if is_key_release(ev) {
        match digit_of(ev.code) {
            Some(c) => seq![c],
            None => Seq::<char>::empty(),
        }
    } else {
        Seq::<char>::empty()
    }
}

/// The digit characters a run of events contributes, in order.
pub open spec fn digits_of(evs: Seq<InputEvent>) -> Seq<char>
    decreases evs.len(),
{
    if evs.len() == 0 {
        Seq::<char>::empty()
    } else {
        event_digit(evs[0]) + digits_of(evs.subrange(1, evs.len() as int))
    }
}

/// The buffer after the accumulator has consumed a run of events one by one.
pub open spec fn tag_run(buf: Seq<char>, evs: Seq<InputEvent>) -> Seq<char>
    decreases evs.len(),
{
    if evs.len() == 0 {
        buf
    } else {
        tag_run(tag_step(buf, evs[0]).0, evs.subrange(1, evs.len() as int))
    }
}

/// For every run of raw events that releases no terminator key, the buffer
/// afterwards holds its previous contents followed by exactly the decoded
/// digit characters, in order; a released terminator key then emits exactly
/// that string and leaves the buffer empty.
pub proof fn lemma_tag_decoder_accumulates(
    buf: Seq<char>,
    evs: Seq<InputEvent>,
    terminator: InputEvent,
)
    requires
        forall|i: int| 0 <= i < evs.len() ==> emits_no_tag(#[trigger] evs[i]),
        is_key_release(terminator),
        terminator.code == KEY_ENTER,
    ensures
        tag_run(buf, evs) == buf + digits_of(evs),
        tag_step(tag_run(buf, evs), terminator) == (
            Seq::<char>::empty(),
            Some(buf + digits_of(evs)),
        ),
    decreases evs.len(),
{
    if evs.len() == 0 {
        assert(buf + digits_of(evs) =~= buf);
    } else {
        let rest = evs.subrange(1, evs.len() as int);
        let stepped = tag_step(buf, evs[0]).0;
        assert(stepped =~= buf + event_digit(evs[0]));
        lemma_tag_decoder_accumulates(stepped, rest, terminator);
        assert(stepped + digits_of(rest) =~= buf + (event_digit(evs[0]) + digits_of(rest)));
    }
}

/// A key-press or repeat event leaves the accumulator unchanged and emits
/// nothing.
pub proof fn lemma_press_is_ignored(buf: Seq<char>, ev: InputEvent)
    requires
        !is_key_release(ev),
    ensures
        tag_step(buf, ev) == (buf, Option::<Seq<char>>::None),
{
}

/// The one-character string a digit key code stands for.
pub(crate) fn digit_str(code: u16) -> (r: Option<&'static str>)
    ensures
        r is Some <==> digit_of(code) is Some,
        r matches Some(s) ==> s@.len() == 1 && digit_of(code) == Some(s@[0]),
{
    if code == KEY_1 {
        proof {
            reveal_strlit("1");
        }
        Some("1")
    } else if code == KEY_2 {
        proof {
            reveal_strlit("2");
        }
        Some("2")
    } else if code == KEY_3 {
        proof {
            reveal_strlit("3");
        }
        Some("3")
    } else if code == KEY_4 {
        proof {
            reveal_strlit("4");
        }
        Some("4")
    } else if code == KEY_5 {
        proof {
            reveal_strlit("5");
        }
        Some("5")
    } else if code == KEY_6 {
        proof {
            reveal_strlit("6");
        }
        Some("6")
    } else if code == KEY_7 {
        proof {
            reveal_strlit("7");
        }
        Some("7")
    } else if code == KEY_8 {
        proof {
            reveal_strlit("8");
        }
        Some("8")
    } else if code == KEY_9 {
        proof {
            reveal_strlit("9");
        }
        Some("9")
    } else if code == KEY_0 {
        proof {
            reveal_strlit("0");
        }
        Some("0")
    } else {
        None
    }
}

/// Accumulates digits typed by the tag scanner and emits a tag string on
/// each released terminator key.
pub struct TagReader {
    chars_read: String,
}

impl View for TagReader {
    type V = Seq<char>;

    closed spec fn view(&self) -> Seq<char> {
        self.chars_read@
    }
}

impl TagReader {
    /// A fresh decoder with an empty buffer.
    pub fn new() -> (r: Self)
        ensures
            r@ == Seq::<char>::empty(),
    {
        Self { chars_read: String::new() }
    }

    /// Consumes one raw event; follows [`tag_step`] exactly.
    pub fn handle_event(&mut self, event: InputEvent) -> (r: Option<String>)
        ensures
            final(self)@ == tag_step(old(self)@, event).0,
            r.deep_view() == tag_step(old(self)@, event).1,
    {
        if !self.is_key_released(event) {
            return None;
        }

        if event.code == KEY_ENTER {
            let input = self.chars_read.clone();
            self.chars_read = String::new();
            Some(input)
        } else {
            match digit_str(event.code) {
                Some(d) => {
                    self.chars_read.append(d);
                    proof {
                        assert(self.chars_read@ =~= old(self)@.push(d@[0]));
                    }
                    None
                },
                None => None,
            }
        }
    }

    fn is_key_released(&self, event: InputEvent) -> (r: bool)
        ensures
            r == is_key_release(event),
    {
        event.event_type == EV_KEY && event.value == 0
    }

    /// The digit character a key code stands for, if any.
    pub fn get_char(&self, key_code: u16) -> (r: Option<char>)
        ensures
            r == digit_of(key_code),
    {
        if key_code == KEY_1 {
            Some('1')
        } else if key_code == KEY_2 {
            Some('2')
        } else if key_code == KEY_3 {
            Some('3')
        } else if key_code == KEY_4 {
            Some('4')
        } else if key_code == KEY_5 {
            Some('5')
        } else if key_code == KEY_6 {
            Some('6')
        } else if key_code == KEY_7 {
            Some('7')
        } else if key_code == KEY_8 {
            Some('8')
        } else if key_code == KEY_9 {
            Some('9')
        } else if key_code == KEY_0 {
            Some('0')
        } else {
            None
        }
    }
}

} // verus!
