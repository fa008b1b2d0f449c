//! Parts of blocking I/O that need no transport.

use core::sync::atomic::AtomicBool;
use std::sync::Arc;

use vstd::prelude::*;

use crate::error;
use crate::error::Error;

verus! {

/// Cooperative read cancellation.
///
/// Pass one clone to a cancellable transport and retain another for
/// [`cancel`](Self::cancel). Token is checked before each read. It does not
/// interrupt a read already blocked in operating system. Use a read timeout to
/// limit that wait. Later reads return
/// [`ErrorKind::Cancelled`](crate::ErrorKind::Cancelled).
///
/// Token only stops local reads. Send a Cancel packet to request server-side
/// cancellation.
///
/// Clones share an atomic flag that any thread may set at any time. Contracts
/// say which call is made on which flag and what it gave. What a flag holds
/// after a store is left unsaid.
#[derive(Debug)]
pub struct CancelToken(Arc<AtomicBool>);

impl Default for CancelToken {
    fn default() -> (token: Self)
        ensures
            token.starts_active(),
    {
        CancelToken::new()
    }
}

impl Clone for CancelToken {
    fn clone(&self) -> (token: Self)
        ensures
            token == *self,
    {
        CancelToken(self.0.clone())
    }
}

impl CancelToken {
    /// Whether the flag of this token was made unset.
    pub closed spec fn starts_active(&self) -> bool {
        call_ensures(AtomicBool::new, (false,), *self.0)
    }

    /// Whether a store set the flag of this token.
    pub closed spec fn sets(&self) -> bool {
        call_ensures(
            AtomicBool::store,
            (&*self.0, true, core::sync::atomic::Ordering::Relaxed),
            (),
        )
    }

    /// Whether a load of the flag of this token gave `answer`.
    pub closed spec fn reads(&self, answer: bool) -> bool {
        call_ensures(
            AtomicBool::load,
            (&*self.0, core::sync::atomic::Ordering::Relaxed),
            answer,
        )
    }

    /// Creates a token in active state.
    pub fn new() -> (token: Self)
        ensures
            token.starts_active(),
    {
        CancelToken(Arc::new(AtomicBool::new(false)))
    }

    /// Cancels future reads for every transport using a clone of this token.
    /// Cancellation cannot be reset.
    pub fn cancel(&self)
        ensures
            self.sets(),
    {
        self.0.store(true, core::sync::atomic::Ordering::Relaxed);
    }

    /// Returns whether any clone has been cancelled.
    pub fn is_cancelled(&self) -> (answer: bool)
        ensures
            self.reads(answer),
    {
        self.0.load(core::sync::atomic::Ordering::Relaxed)
    }
}

/// A token and its clone are tokens of one flag: what sets the flag of one sets
/// the flag of the other, and what is read from one is read from the other.
pub proof fn law_clones_share_one_flag(token: CancelToken, clone: CancelToken, answer: bool)
    requires
        call_ensures(CancelToken::clone, (&token,), clone),
    ensures
        clone.starts_active() == token.starts_active(),
        clone.sets() == token.sets(),
        clone.reads(answer) == token.reads(answer),
{
}

/// Absolute deadline of a read that may take `timeout_us` microseconds from
/// `now_us` on. Zero stands for no deadline, so a deadline is never below one.
pub open spec fn deadline(now_us: int, timeout_us: Option<u128>) -> int {
    match timeout_us {
        None => 0,
        Some(timeout) => {
            let wait: int = if timeout > i64::MAX {
                i64::MAX as int
            } else {
                timeout as int
            };
            if now_us + wait > i64::MAX {
                i64::MAX as int
            } else if now_us + wait < 1 {
                1
            } else {
                now_us + wait
            }
        },
    }
}

/// Computes the absolute deadline of later reads.
///
/// `None` removes deadline. Timeout is calculated when this function is called
/// and shared by later reads. Zero causes next read to time out immediately.
pub fn deadline_us(now_us: i64, timeout_us: Option<u128>) -> (at: i64)
    ensures
        at == deadline(now_us as int, timeout_us),
{
    match timeout_us {
        None => 0,
        Some(timeout) => {
            let wait: i64 = if timeout > i64::MAX as u128 {
                i64::MAX
            } else {
                timeout as i64
            };
            let at: i64 = if now_us > 0 && wait > i64::MAX - now_us {
                i64::MAX
            } else {
                now_us + wait
            };
            if at < 1 {
                1
            } else {
                at
            }
        },
    }
}

/// A timeout never turns into the value that disables deadlines, and a longer
/// one never ends earlier.
pub proof fn law_deadline_is_set_and_monotonic(now_us: i64, short: u128, long: u128)
    requires
        short <= long,
    ensures
        0 < deadline(now_us as int, Some(short)) <= deadline(now_us as int, Some(long))
            <= i64::MAX,
        now_us <= deadline(now_us as int, Some(short)),
        deadline(now_us as int, None) == 0,
{
}

/// A timeout of zero ends at the present moment.
pub proof fn law_zero_timeout_ends_now(now_us: i64)
    requires
        now_us > 0,
    ensures
        deadline(now_us as int, Some(0)) == now_us,
{
}

/// Error of a transport that has no read timeout.
pub fn unsupported_read_timeout() -> (error: Error)
    ensures
        error@ == error::usage_error("I/O backend does not support read timeouts"@),
{
    Error::usage("I/O backend does not support read timeouts".to_owned())
}

/// Read-only transport over bytes in memory.
pub struct SliceIo<'a> {
    data: &'a [u8],
    at: usize,
}

/// What a [`SliceIo`] has read and has yet to read.
#[verifier::ext_equal]
pub struct SliceIoView {
    pub done: Seq<u8>,
    pub left: Seq<u8>,
}

impl SliceIoView {
    /// State after a read of `n` bytes.
    pub open spec fn advanced(self, n: int) -> SliceIoView {
        SliceIoView { done: self.done + self.left.take(n), left: self.left.skip(n) }
    }
}

impl<'a> View for SliceIo<'a> {
    type V = SliceIoView;

    closed spec fn view(&self) -> SliceIoView {
        SliceIoView {
            done: self.data@.take(self.at as int),
            left: self.data@.skip(self.at as int),
        }
    }
}

impl<'a> SliceIo<'a> {
    #[verifier::type_invariant]
    closed spec fn inv(self) -> bool {
        self.at <= self.data@.len()
    }

    /// Creates a transport that reads `data`.
    pub fn new(data: &'a [u8]) -> (io: Self)
        ensures
            io@ == (SliceIoView { done: Seq::empty(), left: data@ }),
    {
        let io = SliceIo { data, at: 0 };
        assert(io@.done =~= Seq::empty());
        assert(io@.left =~= data@);
        io
    }

    /// Reads as many bytes as `buf` holds, or those that are left. A count of
    /// zero for a nonempty `buf` is the end of the data.
    pub fn read(&mut self, buf: &mut [u8]) -> (n: usize)
        ensures
            n == if old(buf)@.len() <= old(self)@.left.len() {
                old(buf)@.len()
            } else {
                old(self)@.left.len()
            },
            final(buf)@ == old(self)@.left.take(n as int) + old(buf)@.skip(n as int),
            final(self)@ == old(self)@.advanced(n as int),
    {
        proof {
            use_type_invariant(&*self);
        }
        let left: usize = self.data.len() - self.at;
        let n: usize = if buf.len() <= left {
            buf.len()
        } else {
            left
        };
        let ghost before = buf@;
        let mut i: usize = 0;
        while i < n
            invariant
                i <= n,
                n <= before.len(),
                buf@.len() == before.len(),
                self.at + n <= self.data.len(),
                buf@ == self.data@.subrange(self.at as int, self.at + i) + before.skip(i as int),
            decreases n - i,
        {
            buf[i] = self.data[self.at + i];
            i = i + 1;
            assert(buf@ =~= self.data@.subrange(self.at as int, self.at + i) + before.skip(
                i as int,
            ));
        }
        assert(self.data@.subrange(self.at as int, self.at + n) =~= self@.left.take(n as int));
        assert(self.data@.skip(self.at + n) =~= self@.left.skip(n as int));
        assert(self.data@.take(self.at + n) =~= self@.done + self@.left.take(n as int));
        self.at = self.at + n;
        n
    }
}

/// Reads hand out the data in order and without a gap: what was read, followed
/// by what is left, stays the same.
pub proof fn law_reads_are_consecutive(io: SliceIoView, n: int)
    requires
        0 <= n <= io.left.len(),
    ensures
        io.advanced(n).done + io.advanced(n).left == io.done + io.left,
        io.advanced(n).done.len() == io.done.len() + n,
{
    assert(io.advanced(n).done + io.advanced(n).left =~= io.done + io.left);
}

/// No timeout is no deadline. A timeout ends that much later than now, but not
/// before the first moment and not after the last one. A timeout that is longer
/// than time can count is as long as time can count.
pub proof fn law_deadline_is_the_timeout_from_now(
    now_us: i64,
    timeout_us: Option<u128>,
    at: i64,
    wait: int,
)
    requires
        call_ensures(deadline_us, (now_us, timeout_us), at),
        timeout_us matches Some(timeout) ==> (timeout <= i64::MAX ==> wait == timeout) && (timeout
            > i64::MAX ==> wait == i64::MAX),
    ensures
        timeout_us is None ==> at == 0,
        timeout_us is Some ==> {
            &&& 1 <= now_us + wait <= i64::MAX ==> at == now_us + wait
            &&& now_us + wait < 1 ==> at == 1
            &&& now_us + wait > i64::MAX ==> at == i64::MAX
        },
{
}

/// A transport without timeouts reports their use as misuse.
pub proof fn law_missing_timeout_is_misuse(error: Error)
    requires
        call_ensures(unsupported_read_timeout, (), error),
    ensures
        error.kind == error::ErrorKind::Usage,
        error.message@ == "I/O backend does not support read timeouts"@,
        error.server_code == 0 && error.server_name@.len() == 0,
{
}

/// A new transport has all of its data left to read.
pub proof fn law_reading_starts_at_the_front<'a>(data: &'a [u8], io: SliceIo<'a>)
    requires
        call_ensures(SliceIo::new, (data,), io),
    ensures
        io@.done.len() == 0,
        io@.left == data@,
{
}

/// A read fills the buffer from its front with the bytes that are next, as many
/// as fit or are left, and moves them to what was read. The rest of the buffer
/// stays as it was.
pub proof fn law_read_takes_what_is_next(
    io: &mut SliceIo<'_>,
    buf: &mut [u8],
    n: usize,
    i: int,
)
    requires
        call_ensures(SliceIo::read, (io, buf), n),
    ensures
        n <= old(buf)@.len() && n <= old(io)@.left.len(),
        n == old(buf)@.len() || n == old(io)@.left.len(),
        final(buf)@.len() == old(buf)@.len(),
        0 <= i < n ==> final(buf)@[i] == old(io)@.left[i],
        n <= i < old(buf)@.len() ==> final(buf)@[i] == old(buf)@[i],
        final(io)@.left == old(io)@.left.subrange(n as int, old(io)@.left.len() as int),
        final(io)@.done == old(io)@.done + old(io)@.left.subrange(0, n as int),
{
    let left = old(io)@.left;
    assert(left.take(n as int) =~= left.subrange(0, n as int));
    assert(left.skip(n as int) =~= left.subrange(n as int, left.len() as int));
}

/// A token starts with an unset flag, a cancellation sets that flag and no
/// other, and what is read is what that flag gave.
proof fn law_token_works_on_its_flag(
    token: CancelToken,
    fresh: CancelToken,
    default: CancelToken,
    answer: bool,
)
    requires
        call_ensures(CancelToken::new, (), fresh),
        call_ensures(CancelToken::default, (), default),
        call_ensures(CancelToken::cancel, (&token,), ()),
        call_ensures(CancelToken::is_cancelled, (&token,), answer),
    ensures
        call_ensures(AtomicBool::new, (false,), *fresh.0),
        call_ensures(AtomicBool::new, (false,), *default.0),
        call_ensures(
            AtomicBool::store,
            (&*token.0, true, core::sync::atomic::Ordering::Relaxed),
            (),
        ),
        call_ensures(
            AtomicBool::load,
            (&*token.0, core::sync::atomic::Ordering::Relaxed),
            answer,
        ),
{
}

} // verus!
