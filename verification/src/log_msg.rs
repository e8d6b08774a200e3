//! The log record: a bounded, always-valid-UTF-8 message buffer with
//! its source location, timestamp and level.

use crate::level::Level;
use crate::timestamp::Timestamp;
use crate::util::Location;
use vstd::prelude::*;
use vstd::string::StringSliceAdditionalSpecFns;
use vstd::utf8::*;

verus! {

/// Capacity of the message body of one record, in bytes. The record is
/// meant to stay about one kibibyte in total, control fields included.
pub const LOG_MSG_SIZE: usize = 960;

/// Largest prefix length of `bytes` that is at most `k` and falls on a
/// UTF-8 character boundary: `k` itself when `bytes[k]` starts a new
/// character (or ends the sequence), else the nearest boundary below.
pub open spec fn utf8_floor(bytes: Seq<u8>, k: int) -> int
    decreases k,
{
    if k <= 0 {
        0
    } else if k >= bytes.len() || !is_continuation_byte(bytes[k]) {
        k
    } else {
        utf8_floor(bytes, k - 1)
    }
}

/// On valid UTF-8 input, `utf8_floor` lands on a character boundary and
/// no later position up to `k` is one: truncating there never splits a
/// multi-byte code point, and drops no complete code point.
pub proof fn lemma_utf8_floor_is_boundary(bytes: Seq<u8>, k: int)
    requires
        valid_utf8(bytes),
        0 <= k <= bytes.len(),
    ensures
        0 <= utf8_floor(bytes, k) <= k,
        is_char_boundary(bytes, utf8_floor(bytes, k)),
        forall|j: int| utf8_floor(bytes, k) < j <= k ==> !is_char_boundary(bytes, j),
    decreases k,
{
    broadcast use is_char_boundary_iff_not_is_continuation_byte;
    broadcast use is_char_boundary_start_end_of_seq;

    if k <= 0 {
    } else if k >= bytes.len() || !is_continuation_byte(bytes[k]) {
    } else {
        lemma_utf8_floor_is_boundary(bytes, k - 1);
    }
}

/// The number of bytes [`LogMsg::write`] appends for an input of
/// `buf_len` bytes onto a body already `body_len` bytes long: as much of
/// the input as fits, rounded down to a UTF-8 character boundary.
pub open spec fn spec_write_len(buf: Seq<u8>, body_len: int) -> int {
    let avail = LOG_MSG_SIZE - body_len;
    let k = if buf.len() <= avail {
        buf.len() as int
    } else {
        avail
    };
    utf8_floor(buf, k)
}

/// The body of a well-formed record is valid UTF-8. Every constructor
/// establishes well-formedness and every append keeps it, so the body
/// is valid UTF-8 after any sequence of appends.
pub proof fn lemma_body_always_valid_utf8(m: LogMsg)
    requires
        m.wf(),
    ensures
        valid_utf8(m.body()),
{
}

/// A log message.
///
/// The body is a bounded byte buffer that always holds valid UTF-8; it
/// is filled by appending UTF-8 fragments, and a fragment that does not
/// fit is silently truncated at a character boundary. The record is a
/// self-contained value: the channel and the capture queue transport it
/// by copy.
pub struct LogMsg {
    location: Location,
    time: Timestamp,
    level: Level,
    buffer: Vec<u8>,
}

impl LogMsg {
    /// The body, at the specification level, as the bytes written so far.
    pub closed spec fn body(self) -> Seq<u8> {
        self.buffer@
    }

    /// The location, at the specification level.
    pub closed spec fn spec_location(self) -> Location {
        self.location
    }

    /// The timestamp, at the specification level.
    pub closed spec fn spec_time(self) -> Timestamp {
        self.time
    }

    /// The level, at the specification level.
    pub closed spec fn spec_level(self) -> Level {
        self.level
    }

    /// The body always holds valid UTF-8, never more than the capacity,
    /// and the timestamp is well formed.
    pub open spec fn wf(self) -> bool {
        &&& valid_utf8(self.body())
        &&& self.body().len() <= LOG_MSG_SIZE
        &&& self.spec_time().wf()
    }

    /// Creates a new, empty log message stamped with the instant now.
    ///
    /// # Arguments
    ///
    /// * `location`: the location this message comes from.
    /// * `level`: the level of the log message.
    pub fn new(location: Location, level: Level) -> (r: LogMsg)
        ensures
            r.wf(),
            r.body() == Seq::<u8>::empty(),
            r.spec_location() == location,
            r.spec_level() == level,
    {
        LogMsg::with_time(location, Timestamp::now_utc(), level)
    }

    /// Creates a new, empty log message with an explicit timestamp.
    ///
    /// # Arguments
    ///
    /// * `location`: the location this message comes from.
    /// * `time`: the instant to stamp the message with.
    /// * `level`: the level of the log message.
    pub fn with_time(location: Location, time: Timestamp, level: Level) -> (r: LogMsg)
        requires
            time.wf(),
        ensures
            r.wf(),
            r.body() == Seq::<u8>::empty(),
            r.spec_location() == location,
            r.spec_time() == time,
            r.spec_level() == level,
    {
        let r = LogMsg { location, time, level, buffer: Vec::new() };
        proof {
            assert(valid_utf8(r.body()));
        }
        r
    }

    /// Auto-creates a new log message holding a pre-defined string, the
    /// same as calling [`write_str`](LogMsg::write_str) after
    /// [`new`](LogMsg::new).
    ///
    /// # Arguments
    ///
    /// * `location`: the location this message comes from.
    /// * `level`: the level of the log message.
    /// * `msg`: the message string.
    pub fn from_msg(location: Location, level: Level, msg: &str) -> (r: LogMsg)
        ensures
            r.wf(),
            r.body() == msg.spec_bytes().subrange(0, spec_write_len(msg.spec_bytes(), 0)),
            r.spec_location() == location,
            r.spec_level() == level,
    {
        let mut r = Self::new(location, level);
        r.write_str(msg);
        proof {
            assert(Seq::<u8>::empty() + msg.spec_bytes().subrange(
                0,
                spec_write_len(msg.spec_bytes(), 0),
            ) =~= msg.spec_bytes().subrange(0, spec_write_len(msg.spec_bytes(), 0)));
        }
        r
    }

    /// Clears the log message body but keeps the location, the time and
    /// the level.
    pub fn clear(&mut self)
        ensures
            final(self).body() == Seq::<u8>::empty(),
            final(self).spec_location() == old(self).spec_location(),
            final(self).spec_time() == old(self).spec_time(),
            final(self).spec_level() == old(self).spec_level(),
            old(self).wf() ==> final(self).wf(),
    {
        self.buffer.clear();
        proof {
            assert(valid_utf8(self.body()));
        }
    }

    /// Replaces the time contained in this log message.
    ///
    /// # Arguments
    ///
    /// * `time`: the new timestamp.
    pub fn set_time(&mut self, time: Timestamp)
        requires
            time.wf(),
        ensures
            final(self).spec_time() == time,
            final(self).body() == old(self).body(),
            final(self).spec_location() == old(self).spec_location(),
            final(self).spec_level() == old(self).spec_level(),
            old(self).wf() ==> final(self).wf(),
    {
        self.time = time;
    }

    /// Appends a UTF-8 byte fragment at the end of the message buffer
    /// and returns the number of bytes written.
    ///
    /// At most the remaining capacity is written; a fragment that does
    /// not fit is cut at a UTF-8 character boundary, so the body stays
    /// valid UTF-8. Truncation is silent and not retried.
    ///
    /// # Arguments
    ///
    /// * `buf`: the byte fragment to append; it must be valid UTF-8.
    pub fn write(&mut self, buf: &[u8]) -> (written: usize)
        requires
            old(self).wf(),
            valid_utf8(buf@),
        ensures
            written == spec_write_len(buf@, old(self).body().len() as int),
            final(self).body() == old(self).body() + buf@.subrange(0, written as int),
            final(self).wf(),
            final(self).spec_location() == old(self).spec_location(),
            final(self).spec_time() == old(self).spec_time(),
            final(self).spec_level() == old(self).spec_level(),
    {
        let remaining: usize = LOG_MSG_SIZE - self.buffer.len();
        let k: usize = if buf.len() <= remaining {
            buf.len()
        } else {
            remaining
        };
        let mut n: usize = k;
        while n > 0 && n < buf.len() && buf[n] >= 0x80 && buf[n] <= 0xbf
            invariant
                0 <= n <= k <= buf@.len(),
                utf8_floor(buf@, k as int) == utf8_floor(buf@, n as int),
            decreases n,
        {
            n = n - 1;
        }
        proof {
            assert(n as int == utf8_floor(buf@, k as int));
            lemma_utf8_floor_is_boundary(buf@, k as int);
            valid_utf8_split(buf@, n as int);
            valid_utf8_concat(self.body(), buf@.subrange(0, n as int));
        }
        let mut i: usize = 0;
        while i < n
            invariant
                0 <= i <= n <= buf@.len(),
                self.buffer@ == old(self).body() + buf@.subrange(0, i as int),
                self.location == old(self).location,
                self.time == old(self).time,
                self.level == old(self).level,
            decreases n - i,
        {
            let b = buf[i];
            self.buffer.push(b);
            proof {
                assert(self.buffer@ =~= old(self).body() + buf@.subrange(0, i as int + 1));
            }
            i = i + 1;
        }
        proof {
            assert(self.buffer@ =~= old(self).body() + buf@.subrange(0, n as int));
        }
        n
    }

    /// Appends a string fragment, truncating as [`write`](LogMsg::write)
    /// does, and returns the number of bytes written.
    pub fn write_str(&mut self, s: &str) -> (written: usize)
        requires
            old(self).wf(),
        ensures
            written == spec_write_len(s.spec_bytes(), old(self).body().len() as int),
            final(self).body() == old(self).body() + s.spec_bytes().subrange(0, written as int),
            final(self).wf(),
            final(self).spec_location() == old(self).spec_location(),
            final(self).spec_time() == old(self).spec_time(),
            final(self).spec_level() == old(self).spec_level(),
    {
        proof {
            encode_utf8_valid_utf8(s@);
        }
        self.write(s.as_bytes())
    }

    /// Returns the location the log message comes from.
    pub fn location(&self) -> (r: &Location)
        ensures
            *r == self.spec_location(),
    {
        &self.location
    }

    /// Returns the time of this log message.
    pub fn time(&self) -> (r: &Timestamp)
        ensures
            *r == self.spec_time(),
    {
        &self.time
    }

    /// Returns the level of this log message.
    pub fn level(&self) -> (r: Level)
        ensures
            r == self.spec_level(),
    {
        self.level
    }

    /// Returns the log message body as a string.
    pub fn msg(&self) -> (r: &str)
        requires
            self.wf(),
        ensures
            r@ == decode_utf8(self.body()),
            r.spec_bytes() == self.body(),
    {
        let r = bytes_as_str(self.buffer.as_slice());
        proof {
            encode_utf8_decode_utf8(r@);
            decode_utf8_encode_utf8(self.body());
        }
        r
    }
}

impl Clone for LogMsg {
    /// An exact copy: the channel and the capture queue transport records
    /// by value.
    fn clone(&self) -> (r: Self)
        ensures
            r.body() == self.body(),
            r.spec_location() == self.spec_location(),
            r.spec_time() == self.spec_time(),
            r.spec_level() == self.spec_level(),
    {
        let mut buffer: Vec<u8> = Vec::new();
        let mut i: usize = 0;
        while i < self.buffer.len()
            invariant
                0 <= i <= self.buffer@.len(),
                buffer@ == self.buffer@.subrange(0, i as int),
            decreases self.buffer@.len() - i,
        {
            let b = self.buffer[i];
            buffer.push(b);
            proof {
                assert(buffer@ =~= self.buffer@.subrange(0, i as int + 1));
            }
            i = i + 1;
        }
        proof {
            assert(buffer@ =~= self.buffer@);
        }
        LogMsg { location: self.location, time: self.time, level: self.level, buffer }
    }
}

/// Relies on `str::from_utf8`: on valid UTF-8 input it returns `Ok` with
/// the borrowed string over exactly the given bytes.
#[verifier::external_body]
fn bytes_as_str(v: &[u8]) -> (r: &str)
    requires
        valid_utf8(v@),
    ensures
        r.spec_bytes() == v@,
{
    match std::str::from_utf8(v) {
        Ok(s) => s,
        Err(_) => "",
    }
}

} // verus!
