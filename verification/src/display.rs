use vstd::prelude::*;

use crate::state::VIDEO_LEN;

verus! {

/// The pair of characters that stands for one pixel: a full block for a lit
/// pixel, blanks for a dark one.
pub open spec fn pixel_chars(pixel: u8) -> Seq<char> {
    if pixel != 0 {
        seq!['▓', '▓']
    } else {
        seq![' ', ' ']
    }
}

/// The text of the first `n` pixels of a frame: each row starts on a new
/// line, and every pixel contributes its two characters.
pub open spec fn frame_prefix(video: Seq<u8>, n: int) -> Seq<char>
    decreases n,
{
    if n <= 0 {
        Seq::empty()
    } else {
        frame_prefix(video, n - 1) + (if (n - 1) % 64 == 0 {
            seq!['\n']
        } else {
            Seq::<char>::empty()
        }) + pixel_chars(video[n - 1])
    }
}

/// Console based display: turns the framebuffer into rows of block
/// characters for the caller to print.
pub struct ConsoleDisplay;

impl ConsoleDisplay {
    /// Render the given video buffer as text: one line of two-character
    /// cells per screen row, with a final line break.
    pub fn render(&self, video_buffer: &Vec<u8>) -> (r: Vec<char>)
        requires
            video_buffer@.len() == VIDEO_LEN,
        ensures
            r@ == frame_prefix(video_buffer@, VIDEO_LEN as int) + seq!['\n'],
    {
        let mut out: Vec<char> = Vec::new();
        let mut i: usize = 0;
        while i < VIDEO_LEN
            invariant
                i <= VIDEO_LEN,
                video_buffer@.len() == VIDEO_LEN,
                out@ == frame_prefix(video_buffer@, i as int),
            decreases VIDEO_LEN - i,
        {
            if i % 64 == 0 {
                out.push('\n');
            }
            if video_buffer[i] != 0 {
                out.push('▓');
                out.push('▓');
            } else {
                out.push(' ');
                out.push(' ');
            }
            proof {
                assert(out@ =~= frame_prefix(video_buffer@, i + 1));
            }
            i = i + 1;
        }
        out.push('\n');
        proof {
            assert(out@ =~= frame_prefix(video_buffer@, VIDEO_LEN as int) + seq!['\n']);
        }
        out
    }
}

} // verus!
