use vstd::prelude::*;

verus! {

/// A text log bounded in length: old text is dropped from the front once
/// the configured maximum is exceeded.
pub struct LogPanel {
    pub content: String,
    pub should_scroll_to_bottom: bool,
}

/// The last `max` characters of a text, or all of it if it is short enough.
pub open spec fn tail_clamp(s: Seq<char>, max: nat) -> Seq<char> {
    if s.len() > max {
        s.subrange(s.len() - max, s.len() as int)
    } else {
        s
    }
}

impl LogPanel {
    /// Whether the view should scroll to the newest text on the next
    /// repaint.
    pub open spec fn scroll_pending(&self) -> bool {
        self.should_scroll_to_bottom
    }

    /// A panel holding the start-up banner.
    pub fn new(_max_length: usize) -> (r: Self)
        ensures
            r.content@ == "Starting app\n"@,
            !r.scroll_pending(),
    {
        LogPanel { content: String::from_str("Starting app\n"), should_scroll_to_bottom: false }
    }

    /// Append a message, keep only the last `max_length` characters, and
    /// mark the view for scrolling.
    pub fn append_log(&mut self, message: &str, max_length: usize)
        ensures
            final(self).content@ == tail_clamp(
                old(self).content@ + message@,
                max_length as nat,
            ),
            final(self).scroll_pending(),
    {
        self.content.append(message);
        let n = self.content.as_str().unicode_len();
        if n > max_length {
            let tail = self.content.as_str().substring_char(n - max_length, n).to_owned();
            self.content = tail;
        }
        self.should_scroll_to_bottom = true;
    }

    /// Discard all text.
    pub fn clear(&mut self)
        ensures
            final(self).content@ == Seq::<char>::empty(),
            final(self).scroll_pending() == old(self).scroll_pending(),
    {
        self.content = String::new();
    }
}

impl Default for LogPanel {
    /// The same panel `new` builds.
    fn default() -> (r: Self)
        ensures
            r.content@ == "Starting app\n"@,
            !r.scroll_pending(),
    {
        LogPanel::new(0)
    }
}

} // verus!
