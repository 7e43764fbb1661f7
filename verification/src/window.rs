//! The host's window and screen environment: the window title, the screen
//! dimensions, and the cursor's visibility over the canvas.
//!
//! The title crosses the boundary as a NUL-terminated buffer in both
//! directions, so a title holding an embedded NUL byte is rejected; what
//! the host hands back decodes to exactly the characters last written.

use vstd::prelude::*;

use crate::decimal::{dec_str, render_i32};
use crate::marshal::{NulError, bytes_to_string, nul_free, to_nul_terminated};
use vstd::string::StringSliceAdditionalSpecFns;
use vstd::utf8::{decode_utf8, encode_utf8, encode_utf8_decode_utf8, encode_utf8_valid_utf8,
    valid_utf8};

verus! {

/// The width and height of the screen, in pixels.
#[derive(Debug, Clone, Copy, PartialEq, Eq, Structural)]
pub struct ScreenSize {
    /// The screen's width in pixels.
    pub width: i32,
    /// The screen's height in pixels.
    pub height: i32,
}

impl ScreenSize {
    /// The size as text, width times height.
    pub fn to_text(&self) -> (r: String)
        ensures
            r@ == dec_str(self.width as int) + "x"@ + dec_str(self.height as int),
    {
        let mut out = render_i32(self.width);
        out.append("x");
        let height_text = render_i32(self.height);
        out.append(height_text.as_str());
        out
    }
}

/// The window and screen state one execution context sees.
pub struct Window {
    /// The window title's bytes as the host holds them, without the
    /// terminator it appends at the boundary.
    pub title: Vec<u8>,
    /// The screen dimensions the host reports.
    pub screen: ScreenSize,
    /// Whether the OS cursor is hidden over the canvas.
    pub mouse_hidden: bool,
}

impl Window {
    /// The title bytes always hold a valid UTF-8 encoding: they were
    /// written from a string, and are read back as one.
    pub open spec fn wf(self) -> bool {
        valid_utf8(self.title@)
    }

    /// A context with an empty title, the given screen dimensions, and the
    /// cursor visible.
    pub fn new(screen: ScreenSize) -> (r: Window)
        ensures
            r.wf(),
            r.title@ == Seq::<u8>::empty(),
            r.screen == screen,
            !r.mouse_hidden,
    {
        Window { title: Vec::new(), screen, mouse_hidden: false }
    }

    /// Sets the window title. A title holding an embedded NUL byte cannot
    /// cross the boundary and is rejected, with the position of its first
    /// NUL byte; the stored title is then unchanged.
    pub fn set_window_title(&mut self, title: &str) -> (r: Result<(), NulError>)
        requires
            old(self).wf(),
        ensures
            final(self).wf(),
            final(self).screen == old(self).screen,
            final(self).mouse_hidden == old(self).mouse_hidden,
            match r {
                Ok(_) => nul_free(title.spec_bytes()) && final(self).title@
                    == title.spec_bytes(),
                Err(e) => {
                    &&& e.nul_position < title.spec_bytes().len()
                    &&& title.spec_bytes()[e.nul_position as int] == 0
                    &&& nul_free(title.spec_bytes().subrange(0, e.nul_position as int))
                    &&& *final(self) == *old(self)
                },
            },
    {
        match to_nul_terminated(title) {
            Ok(_) => {
                self.title = title.as_bytes_vec();
                proof {
                    encode_utf8_valid_utf8(title@);
                }
                Ok(())
            },
            Err(e) => Err(e),
        }
    }

    /// Returns the window title: the characters whose encoding the host
    /// holds — exactly those last written through [`Self::set_window_title`].
    pub fn get_window_title(&self) -> (r: String)
        requires
            self.wf(),
        ensures
            encode_utf8(r@) == self.title@,
            r@ == decode_utf8(self.title@),
    {
        bytes_to_string(self.title.as_slice())
    }

    /// Returns the screen's width and height.
    pub fn get_screen_size(&self) -> (r: ScreenSize)
        ensures
            r == self.screen,
    {
        self.screen
    }

    /// Hides the OS cursor over the canvas, for callers that draw their
    /// own. The rest of the context is untouched.
    pub fn hide_mouse(&mut self)
        ensures
            *final(self) == (Window { mouse_hidden: true, ..*old(self) }),
    {
        self.mouse_hidden = true;
    }
}

/// Law: writing a title and reading it back yields the same characters.
pub proof fn lemma_title_round_trip(chars: Seq<char>)
    ensures
        decode_utf8(encode_utf8(chars)) == chars,
{
    encode_utf8_decode_utf8(chars);
}

} // verus!
