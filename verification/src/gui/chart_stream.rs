use vstd::prelude::*;

use crate::portlist::seq_views;
use crate::rxformat::{bytes_to_text, utf8_lossy};

verus! {

/// The chart's framing of the incoming byte stream: bytes are decoded as
/// text, values are complete once a comma follows them, and the text after
/// the last comma waits in a bounded buffer for the rest of its value.
/// Turning the complete values into numeric samples is the consumer's
/// concern.
pub struct ChartStream {
    pub buffer: String,
}

/// What Rust's str::trim removes from both ends of a text; the result
/// depends on the characters alone.
pub uninterp spec fn trim_of(s: Seq<char>) -> Seq<char>;

/// Relies on str::trim: removes leading and trailing whitespace.
#[verifier::external_body]
fn trim_str(s: &str) -> (r: String)
    ensures
        r@ == trim_of(s@),
{
    s.trim().to_string()
}

/// The position of the first comma, or a negative value if there is none.
pub open spec fn first_comma(s: Seq<char>) -> int
    decreases s.len(),
{
    if s.len() == 0 {
        -1
    } else if s[0] == ',' {
        0
    } else {
        let r = first_comma(s.drop_first());
        if r < 0 {
            -1
        } else {
            r + 1
        }
    }
}

proof fn lemma_first_comma(s: Seq<char>)
    ensures
        first_comma(s) >= 0 ==> {
            &&& first_comma(s) < s.len()
            &&& s[first_comma(s)] == ','
            &&& forall|j: int| 0 <= j < first_comma(s) ==> s[j] != ','
        },
        first_comma(s) < 0 ==> forall|j: int| 0 <= j < s.len() ==> s[j] != ',',
    decreases s.len(),
{
    if s.len() != 0 && s[0] != ',' {
        lemma_first_comma(s.drop_first());
        assert forall|j: int| 1 <= j < s.len() implies s[j] == s.drop_first()[j - 1] by {}
    }
}

proof fn lemma_first_comma_at(s: Seq<char>, i: int)
    requires
        0 <= i <= s.len(),
        forall|j: int| 0 <= j < i ==> s[j] != ',',
        i < s.len() ==> s[i] == ',',
    ensures
        i < s.len() ==> first_comma(s) == i,
        i == s.len() ==> first_comma(s) < 0,
    decreases i,
{
    if i == 0 {
        if s.len() > 0 {
        } else {
        }
    } else {
        assert(s[0] != ',');
        lemma_first_comma_at(s.drop_first(), i - 1);
        assert forall|j: int| 0 <= j < i - 1 implies s.drop_first()[j] != ',' by {
            assert(s.drop_first()[j] == s[j + 1]);
        }
    }
}

/// The values completed by a comma, in stream order: each segment before a
/// comma, trimmed, kept if anything remains of it.
pub open spec fn complete_values(s: Seq<char>) -> Seq<Seq<char>>
    decreases s.len(),
    via complete_values_decreases
{
    let f = first_comma(s);
    if f < 0 {
        Seq::empty()
    } else {
        let v = trim_of(s.take(f));
        let rest = complete_values(s.skip(f + 1));
        if v.len() > 0 {
            seq![v] + rest
        } else {
            rest
        }
    }
}

#[via_fn]
proof fn complete_values_decreases(s: Seq<char>) {
    lemma_first_comma(s);
}

/// The text waiting after the last comma.
pub open spec fn comma_remainder(s: Seq<char>) -> Seq<char>
    decreases s.len(),
    via comma_remainder_decreases
{
    let f = first_comma(s);
    if f < 0 {
        s
    } else {
        comma_remainder(s.skip(f + 1))
    }
}

#[via_fn]
proof fn comma_remainder_decreases(s: Seq<char>) {
    lemma_first_comma(s);
}

/// A waiting remainder over 50 characters is likely garbage: only its last
/// 20 characters are kept, in case a valid value ends it.
pub open spec fn buffer_clamp(s: Seq<char>) -> Seq<char> {
    if s.len() > 50 {
        s.skip(s.len() - 20)
    } else {
        s
    }
}

fn find_comma(s: &str) -> (r: Option<usize>)
    ensures
        r matches Some(i) ==> i as int == first_comma(s@),
        r is None ==> first_comma(s@) < 0,
{
    let n = s.unicode_len();
    let mut i: usize = 0;
    loop
        invariant
            i <= n,
            n == s@.len(),
            forall|j: int| 0 <= j < i ==> s@[j] != ',',
        decreases n - i,
    {
        if i == n {
            proof {
                lemma_first_comma_at(s@, i as int);
            }
            return None;
        }
        if s.get_char(i) == ',' {
            proof {
                lemma_first_comma_at(s@, i as int);
            }
            return Some(i);
        }
        i += 1;
    }
}

impl ChartStream {
    /// An empty stream buffer.
    pub fn new() -> (r: Self)
        ensures
            r.buffer@ == Seq::<char>::empty(),
    {
        ChartStream { buffer: String::new() }
    }

    /// Take in one received chunk: the returned values are exactly those
    /// completed by a comma within the buffered text so far, in stream
    /// order, and the clamped remainder stays buffered for the next chunk.
    pub fn process_rx(&mut self, message: &Vec<u8>) -> (values: Vec<String>)
        ensures
            seq_views(values@) == complete_values(
                old(self).buffer@ + utf8_lossy(message@),
            ),
            final(self).buffer@ == buffer_clamp(
                comma_remainder(old(self).buffer@ + utf8_lossy(message@)),
            ),
    {
        let text = bytes_to_text(message);
        self.buffer.append(text.as_str());
        let ghost combined = self.buffer@;
        let mut values: Vec<String> = Vec::new();
        proof {
            assert(seq_views(values@) =~= Seq::<Seq<char>>::empty());
            assert(seq_views(values@) + complete_values(self.buffer@) =~= complete_values(
                combined,
            ));
        }
        loop
            invariant_except_break
                seq_views(values@) + complete_values(self.buffer@) == complete_values(combined),
                comma_remainder(self.buffer@) == comma_remainder(combined),
            ensures
                seq_views(values@) == complete_values(combined),
                first_comma(self.buffer@) < 0,
                comma_remainder(self.buffer@) == comma_remainder(combined),
            decreases self.buffer@.len(),
        {
            let ghost prev_buf = self.buffer@;
            let ghost prev_values = values@;
            match find_comma(self.buffer.as_str()) {
                Some(f) => {
                    proof {
                        lemma_first_comma(prev_buf);
                    }
                    let n = self.buffer.as_str().unicode_len();
                    let seg = self.buffer.as_str().substring_char(0, f);
                    let value = trim_str(seg);
                    proof {
                        assert(seg@ =~= prev_buf.take(f as int));
                        assert(value@ == trim_of(prev_buf.take(f as int)));
                    }
                    let rest = self.buffer.as_str().substring_char(f + 1, n).to_owned();
                    self.buffer = rest;
                    proof {
                        assert(self.buffer@ =~= prev_buf.skip(f as int + 1));
                    }
                    if !value.as_str().is_empty() {
                        values.push(value);
                        proof {
                            assert(seq_views(values@) =~= seq_views(prev_values).push(
                                trim_of(prev_buf.take(f as int)),
                            ));
                            assert(seq_views(prev_values).push(trim_of(prev_buf.take(f as int)))
                                + complete_values(self.buffer@) =~= seq_views(prev_values) + (seq![
                                trim_of(prev_buf.take(f as int)),
                            ] + complete_values(self.buffer@)));
                        }
                    } else {
                        proof {
                            assert(trim_of(prev_buf.take(f as int)).len() == 0);
                        }
                    }
                },
                None => {
                    proof {
                        assert(complete_values(self.buffer@) =~= Seq::<Seq<char>>::empty());
                        assert(seq_views(values@) =~= seq_views(values@) + complete_values(
                            self.buffer@,
                        ));
                    }
                    break;
                },
            }
        }
        proof {
            assert(comma_remainder(self.buffer@) == self.buffer@);
        }
        let ghost rem = self.buffer@;
        let n = self.buffer.as_str().unicode_len();
        if n > 50 {
            let tail = self.buffer.as_str().substring_char(n - 20, n).to_owned();
            self.buffer = tail;
            proof {
                assert(self.buffer@ =~= buffer_clamp(rem));
            }
        } else {
            proof {
                assert(self.buffer@ == buffer_clamp(rem));
            }
        }
        values
    }
}

} // verus!
