//! The host's console output channels.
//!
//! Each operation marshals one string into its NUL-terminated buffer form
//! and appends it to one output channel; a string holding an embedded NUL
//! byte is rejected and no channel changes. [`Console`] models the
//! channels' contents, so what each operation appends is stated exactly.

use vstd::prelude::*;

use crate::marshal::{NulError, nul_free, to_nul_terminated};
use vstd::string::StringSliceAdditionalSpecFns;

verus! {

/// The console output channels one execution context writes to, each a
/// sequence of the NUL-terminated buffers handed to the host.
pub struct Console {
    /// Buffers sent to the host's `console.log` channel.
    pub log_channel: Vec<Vec<u8>>,
    /// Buffers sent to the host's `console.warn` channel.
    pub warn_channel: Vec<Vec<u8>>,
    /// Buffers sent to the host's `console.error` channel.
    pub error_channel: Vec<Vec<u8>>,
    /// Buffers sent to the host's plain output channel.
    pub out_channel: Vec<Vec<u8>>,
    /// Buffers sent to the host's plain error channel.
    pub err_channel: Vec<Vec<u8>>,
    /// Buffers sent to the host's debug channel.
    pub dbg_channel: Vec<Vec<u8>>,
}

/// What every console operation ensures: on a NUL-free string, success,
/// with the string's terminated buffer appended to the operation's own
/// channel (`pre` to `post` below); on a string holding a NUL byte, the
/// rejection carrying the first NUL's position, with every channel left
/// unchanged.
pub open spec fn console_send_ens(
    pre: Seq<Seq<u8>>,
    post: Seq<Seq<u8>>,
    s: &str,
    r: Result<(), NulError>,
) -> bool {
    match r {
        Ok(_) => nul_free(s.spec_bytes()) && post == pre.push(s.spec_bytes().push(0u8)),
        Err(e) => {
            &&& e.nul_position < s.spec_bytes().len()
            &&& s.spec_bytes()[e.nul_position as int] == 0
            &&& nul_free(s.spec_bytes().subrange(0, e.nul_position as int))
        },
    }
}

/// Marshals the string and appends its buffer to the given channel;
/// rejects a string holding a NUL byte and leaves the channel unchanged.
fn send_to_channel(channel: &mut Vec<Vec<u8>>, string: &str) -> (r: Result<(), NulError>)
    ensures
        console_send_ens(old(channel).deep_view(), final(channel).deep_view(), string, r),
        r is Err ==> *final(channel) == *old(channel),
{
    match to_nul_terminated(string) {
        Ok(buf) => {
            let ghost pre = channel.deep_view();
            let ghost pushed = buf@;
            channel.push(buf);
            proof {
                assert(channel.deep_view() =~~= pre.push(pushed));
            }
            Ok(())
        },
        Err(e) => Err(e),
    }
}

impl Console {
    /// A context whose channels have seen no output yet.
    pub fn new() -> (r: Console)
        ensures
            r.log_channel@ == Seq::<Vec<u8>>::empty(),
            r.warn_channel@ == Seq::<Vec<u8>>::empty(),
            r.error_channel@ == Seq::<Vec<u8>>::empty(),
            r.out_channel@ == Seq::<Vec<u8>>::empty(),
            r.err_channel@ == Seq::<Vec<u8>>::empty(),
            r.dbg_channel@ == Seq::<Vec<u8>>::empty(),
    {
        Console {
            log_channel: Vec::new(),
            warn_channel: Vec::new(),
            error_channel: Vec::new(),
            out_channel: Vec::new(),
            err_channel: Vec::new(),
            dbg_channel: Vec::new(),
        }
    }

    /// Prints the given string through the host's `console.log` channel.
    pub fn log(&mut self, string: &str) -> (r: Result<(), NulError>)
        ensures
            console_send_ens(
                old(self).log_channel.deep_view(),
                final(self).log_channel.deep_view(),
                string,
                r,
            ),
            final(self).warn_channel == old(self).warn_channel,
            final(self).error_channel == old(self).error_channel,
            final(self).out_channel == old(self).out_channel,
            final(self).err_channel == old(self).err_channel,
            final(self).dbg_channel == old(self).dbg_channel,
            r is Err ==> *final(self) == *old(self),
    {
        send_to_channel(&mut self.log_channel, string)
    }

    /// Prints the given string through the host's `console.warn` channel.
    pub fn warn(&mut self, string: &str) -> (r: Result<(), NulError>)
        ensures
            console_send_ens(
                old(self).warn_channel.deep_view(),
                final(self).warn_channel.deep_view(),
                string,
                r,
            ),
            final(self).log_channel == old(self).log_channel,
            final(self).error_channel == old(self).error_channel,
            final(self).out_channel == old(self).out_channel,
            final(self).err_channel == old(self).err_channel,
            final(self).dbg_channel == old(self).dbg_channel,
            r is Err ==> *final(self) == *old(self),
    {
        send_to_channel(&mut self.warn_channel, string)
    }

    /// Prints the given string through the host's `console.error` channel.
    pub fn error(&mut self, string: &str) -> (r: Result<(), NulError>)
        ensures
            console_send_ens(
                old(self).error_channel.deep_view(),
                final(self).error_channel.deep_view(),
                string,
                r,
            ),
            final(self).log_channel == old(self).log_channel,
            final(self).warn_channel == old(self).warn_channel,
            final(self).out_channel == old(self).out_channel,
            final(self).err_channel == old(self).err_channel,
            final(self).dbg_channel == old(self).dbg_channel,
            r is Err ==> *final(self) == *old(self),
    {
        send_to_channel(&mut self.error_channel, string)
    }

    /// Prints the given string through the host's plain output channel.
    pub fn out(&mut self, string: &str) -> (r: Result<(), NulError>)
        ensures
            console_send_ens(
                old(self).out_channel.deep_view(),
                final(self).out_channel.deep_view(),
                string,
                r,
            ),
            final(self).log_channel == old(self).log_channel,
            final(self).warn_channel == old(self).warn_channel,
            final(self).error_channel == old(self).error_channel,
            final(self).err_channel == old(self).err_channel,
            final(self).dbg_channel == old(self).dbg_channel,
            r is Err ==> *final(self) == *old(self),
    {
        send_to_channel(&mut self.out_channel, string)
    }

    /// Prints the given string through the host's plain error channel.
    pub fn err(&mut self, string: &str) -> (r: Result<(), NulError>)
        ensures
            console_send_ens(
                old(self).err_channel.deep_view(),
                final(self).err_channel.deep_view(),
                string,
                r,
            ),
            final(self).log_channel == old(self).log_channel,
            final(self).warn_channel == old(self).warn_channel,
            final(self).error_channel == old(self).error_channel,
            final(self).out_channel == old(self).out_channel,
            final(self).dbg_channel == old(self).dbg_channel,
            r is Err ==> *final(self) == *old(self),
    {
        send_to_channel(&mut self.err_channel, string)
    }

    /// Prints the given string through the host's debug channel.
    pub fn dbg(&mut self, string: &str) -> (r: Result<(), NulError>)
        ensures
            console_send_ens(
                old(self).dbg_channel.deep_view(),
                final(self).dbg_channel.deep_view(),
                string,
                r,
            ),
            final(self).log_channel == old(self).log_channel,
            final(self).warn_channel == old(self).warn_channel,
            final(self).error_channel == old(self).error_channel,
            final(self).out_channel == old(self).out_channel,
            final(self).err_channel == old(self).err_channel,
            r is Err ==> *final(self) == *old(self),
    {
        send_to_channel(&mut self.dbg_channel, string)
    }
}

} // verus!
