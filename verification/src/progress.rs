use vstd::prelude::*;

use crate::display::bar_finish_with_message;
use crate::display::bar_new;
use crate::display::bar_set_message;
use crate::display::bar_set_position;
use crate::display::bar_set_style;
use crate::display::multi_add;

verus! {

// One progress indicator per in-flight download.  The rendering is done
// by the indicatif crate behind the trusted wrappers of the display
// module, none of which is relied on for anything: the position
// accounting — never decreasing, never past the declared total — is this
// module's own, verified logic.

/// `downloaded + chunk` clamped to `total`: the position after one more
/// chunk of `chunk` bytes, never past the declared total even when the
/// server sends more than it declared.
pub open spec fn clamped_add(downloaded: u64, chunk: u64, total: u64) -> u64 {
    if downloaded + chunk >= total {
        total
    } else {
        (downloaded + chunk) as u64
    }
}

/// One download's progress indicator: the verified position accounting
/// plus the rendered bar.  The position never exceeds `length` and never
/// decreases; `update` is the only way it moves.
pub struct ProgressReporter {
    pub bar: indicatif::ProgressBar,
    pub url: String,
    pub out_path_str: String,
    pub position: u64,
    pub length: u64,
}

impl ProgressReporter {
    /// The indicator's invariant: the position stays within the total.
    pub open spec fn wf(&self) -> bool {
        self.position <= self.length
    }

    /// Creates the indicator for one transfer of `total_size` bytes, at
    /// position zero, labelled with the target's name (or the fixed
    /// helper label) and URL.  With a shared display surface it renders
    /// as one of its stacked lines; without one it owns the output
    /// stream.
    pub fn new(
        multi_progress: Option<&indicatif::MultiProgress>,
        url: &str,
        out_path_str: &str,
        total_size: u64,
        download_name: Option<&str>,
    ) -> (r: ProgressReporter)
        ensures
            r.wf(),
            r.position == 0,
            r.length == total_size,
            r.url@ == url@,
            r.out_path_str@ == out_path_str@,
    {
        let bar: indicatif::ProgressBar = match multi_progress {
            Some(multi) => multi_add(multi, bar_new(total_size)),
            None => bar_new(total_size),
        };
        bar_set_style(&bar);
        let mut msg: String = "Downloading ".to_owned();
        match download_name {
            Some(name) => msg.append(name),
            None => msg.append("mido"),
        }
        msg.append(" ");
        msg.append(url);
        msg.append("...");
        bar_set_message(&bar, msg);
        ProgressReporter {
            bar: bar,
            url: url.to_owned(),
            out_path_str: out_path_str.to_owned(),
            position: 0,
            length: total_size,
        }
    }

    /// Advances the indicator by one chunk of `chunk_len` bytes: the new
    /// position is the old one plus the chunk, clamped to the declared
    /// total, so it never decreases and never passes the total.
    pub fn update(&mut self, chunk_len: usize)
        requires
            old(self).wf(),
        ensures
            final(self).wf(),
            final(self).position == clamped_add(
                old(self).position,
                chunk_len as u64,
                old(self).length,
            ),
            old(self).position <= final(self).position <= final(self).length,
            final(self).length == old(self).length,
            final(self).url == old(self).url,
            final(self).out_path_str == old(self).out_path_str,
    {
        let add: u64 = chunk_len as u64;
        let new_pos: u64 = if add >= self.length - self.position {
            self.length
        } else {
            self.position + add
        };
        bar_set_position(&self.bar, new_pos);
        self.position = new_pos;
    }

    /// Ends the indicator with its one terminal message, naming the
    /// source URL and the destination path.
    pub fn finish(self) {
        let mut msg: String = "Downloaded ".to_owned();
        msg.append(self.url.as_str());
        msg.append(" to ");
        msg.append(self.out_path_str.as_str());
        bar_finish_with_message(&self.bar, msg);
    }
}

} // verus!
