use vstd::prelude::*;

use std::collections::VecDeque;

verus! {

/// The received-data panel: a bounded ring of the most recent characters.
pub struct RxPanel {
    pub content: VecDeque<char>,
    pub should_scroll_to_bottom: bool,
}

/// Appending a message to a ring of capacity `max`, character by character:
/// whenever the ring is full its oldest character leaves before the next
/// one enters.
pub open spec fn ring_append(content: Seq<char>, msg: Seq<char>, max: nat) -> Seq<char>
    decreases msg.len(),
{
    if msg.len() == 0 {
        content
    } else {
        let shifted = if content.len() == max && content.len() > 0 {
            content.drop_first()
        } else {
            content
        };
        ring_append(shifted.push(msg[0]), msg.drop_first(), max)
    }
}

proof fn lemma_ring_append_push(content: Seq<char>, msg: Seq<char>, x: char, max: nat)
    ensures
        ring_append(content, msg.push(x), max) == {
            let r = ring_append(content, msg, max);
            let shifted = if r.len() == max && r.len() > 0 {
                r.drop_first()
            } else {
                r
            };
            shifted.push(x)
        },
    decreases msg.len(),
{
    if msg.len() == 0 {
        let shifted_c = if content.len() == max && content.len() > 0 {
            content.drop_first()
        } else {
            content
        };
        assert(msg.push(x)[0] == x);
        assert(msg.push(x).drop_first() =~= Seq::<char>::empty());
        assert(ring_append(content, msg, max) == content);
        assert(ring_append(shifted_c.push(x), msg.push(x).drop_first(), max) == shifted_c.push(
            x,
        ));
    } else {
        let shifted = if content.len() == max && content.len() > 0 {
            content.drop_first()
        } else {
            content
        };
        assert(msg.push(x)[0] == msg[0]);
        assert(msg.push(x).drop_first() =~= msg.drop_first().push(x));
        lemma_ring_append_push(shifted.push(msg[0]), msg.drop_first(), x, max);
    }
}

impl RxPanel {
    /// Whether the view should scroll to the newest characters on the next
    /// repaint.
    pub open spec fn scroll_pending(&self) -> bool {
        self.should_scroll_to_bottom
    }

    /// An empty panel.
    pub fn new(_max_length: usize) -> (r: Self)
        ensures
            r.content@ == Seq::<char>::empty(),
            !r.scroll_pending(),
    {
        RxPanel { content: VecDeque::new(), should_scroll_to_bottom: false }
    }

    /// Append a message character by character, keeping at most `max_length`
    /// characters by discarding the oldest ones, and mark the view for
    /// scrolling.
    pub fn append_log(&mut self, message: &str, max_length: usize)
        ensures
            final(self).content@ == ring_append(
                old(self).content@,
                message@,
                max_length as nat,
            ),
            final(self).scroll_pending(),
    {
        let n = message.unicode_len();
        let mut i: usize = 0;
        proof {
            assert(message@.take(0) =~= Seq::<char>::empty());
        }
        while i < n
            invariant
                i <= n,
                n == message@.len(),
                self.content@ == ring_append(
                    old(self).content@,
                    message@.take(i as int),
                    max_length as nat,
                ),
            decreases n - i,
        {
            let ch = message.get_char(i);
            proof {
                lemma_ring_append_push(
                    old(self).content@,
                    message@.take(i as int),
                    message@[i as int],
                    max_length as nat,
                );
                assert(message@.take(i + 1) =~= message@.take(i as int).push(
                    message@[i as int],
                ));
            }
            if self.content.len() == max_length {
                let _ = self.content.pop_front();
            }
            self.content.push_back(ch);
            i += 1;
        }
        proof {
            assert(message@.take(n as int) =~= message@);
        }
        self.should_scroll_to_bottom = true;
    }

    /// Discard every character.
    pub fn clear(&mut self)
        ensures
            final(self).content@ == Seq::<char>::empty(),
            final(self).scroll_pending() == old(self).scroll_pending(),
    {
        self.content.clear();
    }
}

impl Default for RxPanel {
    /// The same empty panel `new` builds.
    fn default() -> (r: Self)
        ensures
            r.content@ == Seq::<char>::empty(),
            !r.scroll_pending(),
    {
        RxPanel::new(0)
    }
}

} // verus!
