use vstd::prelude::*;

use crate::text::str_chars;

verus! {

/// A `char` with the Unicode `White_Space` property, the set `str::trim`
/// removes.
pub open spec fn white_space(c: char) -> bool {
    let v = c as u32;
    ||| 0x09 <= v <= 0x0d
    ||| v == 0x20
    ||| v == 0x85
    ||| v == 0xa0
    ||| v == 0x1680
    ||| 0x2000 <= v <= 0x200a
    ||| v == 0x2028
    ||| v == 0x2029
    ||| v == 0x202f
    ||| v == 0x205f
    ||| v == 0x3000
}

/// `s` without its leading white space.
pub open spec fn trim_start(s: Seq<char>) -> Seq<char>
    decreases s.len(),
{
    if s.len() > 0 && white_space(s[0]) {
        trim_start(s.subrange(1, s.len() as int))
    } else {
        s
    }
}

/// `s` without its trailing white space.
pub open spec fn trim_end(s: Seq<char>) -> Seq<char>
    decreases s.len(),
{
    if s.len() > 0 && white_space(s.last()) {
        trim_end(s.drop_last())
    } else {
        s
    }
}

/// `s` without leading and trailing white space.
pub open spec fn trimmed(s: Seq<char>) -> Seq<char> {
    trim_end(trim_start(s))
}

/// An ASCII decimal digit.
pub open spec fn is_digit(c: char) -> bool {
    '0' as u32 <= c as u32 <= '9' as u32
}

/// The number a string of decimal digits spells.
pub open spec fn decimal(s: Seq<char>) -> int
    decreases s.len(),
{
    if s.len() == 0 {
        0
    } else {
        decimal(s.drop_last()) * 10 + (s.last() as u32 - '0' as u32)
    }
}

/// The digits of an unsigned decimal number: `s` without one optional
/// leading `+`.
pub open spec fn unsigned_digits(s: Seq<char>) -> Seq<char> {
    if s.len() > 0 && s[0] == '+' {
        s.subrange(1, s.len() as int)
    } else {
        s
    }
}

/// How `str::parse::<u64>` reads `s`: an optional `+`, then at least one
/// ASCII digit and nothing else, naming a number that fits in 64 bits.
pub open spec fn parsed_u64(s: Seq<char>) -> Option<u64> {
    let digits = unsigned_digits(s);
    if digits.len() > 0 && (forall|i: int| 0 <= i < digits.len() ==> is_digit(#[trigger] digits[i]))
        && decimal(digits) <= u64::MAX {
        Some(decimal(digits) as u64)
    } else {
        None
    }
}

/// The first future id handed out.
pub const FIRST_FUTURE_ID: u64 = 1;

/// The id generator's next state after handing out `current`; `None` when the
/// id space is exhausted.
pub open spec fn next_future_id(current: u64) -> Option<u64> {
    if current < u64::MAX {
        Some((current + 1) as u64)
    } else {
        None
    }
}

/// Advances the future id generator past `current`.
pub fn advance_future_id(current: u64) -> (r: Option<u64>)
    ensures
        r == next_future_id(current),
{
    current.checked_add(1)
}

/// Every id the generator hands out after `current` is larger than
/// `current`, so two pending futures never share an id, and none is 0.
pub proof fn future_ids_increase(current: u64, steps: nat)
    requires
        current >= FIRST_FUTURE_ID,
    ensures
        future_id_after(current, steps) is Some ==> future_id_after(current, steps)->0 >= current
            + steps,
        future_id_after(current, steps) is Some ==> future_id_after(current, steps)->0 != 0,
    decreases steps,
{
    if steps > 0 {
        future_ids_increase(current, (steps - 1) as nat);
    }
}

/// The generator state after `steps` ids were handed out from `current`.
pub open spec fn future_id_after(current: u64, steps: nat) -> Option<u64>
    decreases steps,
{
    if steps == 0 {
        Some(current)
    } else {
        match future_id_after(current, (steps - 1) as nat) {
            Some(id) => next_future_id(id),
            None => None,
        }
    }
}

/// A request line sent to the notification listener.
#[derive(Debug, Clone, Copy, Eq, PartialEq, Structural)]
pub enum NotificationRequest {
    /// A liveness probe.
    Ping,
    /// A subscription: wait until the future with this id is ready.
    Future(u64),
    /// Anything else, which is left unanswered.
    Ignore,
}

/// What a request line asks for, once trimmed: `PING`, a future id, or
/// nothing the listener answers.
pub open spec fn notification_request(line: Seq<char>) -> NotificationRequest {
    let text = trimmed(line);
    if text == seq!['P', 'I', 'N', 'G'] {
        NotificationRequest::Ping
    } else {
        match parsed_u64(text) {
            Some(id) => NotificationRequest::Future(id),
            None => NotificationRequest::Ignore,
        }
    }
}

/// A reply line of the notification listener.
#[derive(Debug, Clone, Copy, Eq, PartialEq, Structural)]
pub enum NotificationReply {
    /// Answer to a liveness probe.
    Pong,
    /// The future the subscriber waited for is ready.
    Ready,
    /// No future with the requested id is pending.
    Unknown,
}

impl NotificationReply {
    /// The text of the reply spec, newline included.
    pub open spec fn text_spec(self) -> Seq<char> {
        match self {
            NotificationReply::Pong => "PONG\n"@,
            NotificationReply::Ready => "READY\n"@,
            NotificationReply::Unknown => "ERR\n"@,
        }
    }

    /// The line sent for this reply, newline included.
    pub fn text(&self) -> (r: &'static str)
        ensures
            r@ == self.text_spec(),
    {
        match self {
            NotificationReply::Pong => "PONG\n",
            NotificationReply::Ready => "READY\n",
            NotificationReply::Unknown => "ERR\n",
        }
    }
}

/// The reply to a subscription: `READY` once the awaited future is ready,
/// `ERR` when no future with that id was pending.
pub fn subscription_reply(pending: bool) -> (r: NotificationReply)
    ensures
        r == (if pending {
            NotificationReply::Ready
        } else {
            NotificationReply::Unknown
        }),
{
    if pending {
        NotificationReply::Ready
    } else {
        NotificationReply::Unknown
    }
}

/// Whether `c` has the Unicode `White_Space` property.
pub fn is_white_space(c: char) -> (r: bool)
    ensures
        r == white_space(c),
{
    let v = c as u32;
    (0x09 <= v && v <= 0x0d) || v == 0x20 || v == 0x85 || v == 0xa0 || v == 0x1680 || (0x2000 <= v
        && v <= 0x200a) || v == 0x2028 || v == 0x2029 || v == 0x202f || v == 0x205f || v == 0x3000
}

/// The bounds `lo..hi` of `s` without leading and trailing white space.
fn trim_bounds(s: &Vec<char>) -> (r: (usize, usize))
    ensures
        r.0 <= r.1 <= s@.len(),
        s@.subrange(r.0 as int, r.1 as int) == trimmed(s@),
{
    let len = s.len();
    let mut lo: usize = 0;
    assert(s@.subrange(0, len as int) =~= s@);
    while lo < len && is_white_space(s[lo])
        invariant
            lo <= len == s@.len(),
            trim_start(s@) == trim_start(s@.subrange(lo as int, len as int)),
        decreases len - lo,
    {
        assert(s@.subrange(lo as int, len as int).subrange(1, (len - lo) as int) =~= s@.subrange(
            lo + 1,
            len as int,
        ));
        lo = lo + 1;
    }
    let ghost rest = s@.subrange(lo as int, len as int);
    assert(trim_start(s@) == rest);
    let mut hi: usize = len;
    while hi > lo && is_white_space(s[hi - 1])
        invariant
            lo <= hi <= len == s@.len(),
            rest == s@.subrange(lo as int, len as int),
            trim_end(rest) == trim_end(s@.subrange(lo as int, hi as int)),
        decreases hi - lo,
    {
        assert(s@.subrange(lo as int, hi as int).drop_last() =~= s@.subrange(
            lo as int,
            hi - 1,
        ));
        hi = hi - 1;
    }
    (lo, hi)
}

/// Reads `s[lo..hi]` as `str::parse::<u64>` does.
fn parse_u64(s: &Vec<char>, lo: usize, hi: usize) -> (r: Option<u64>)
    requires
        lo <= hi <= s@.len(),
    ensures
        r == parsed_u64(s@.subrange(lo as int, hi as int)),
{
    let ghost text = s@.subrange(lo as int, hi as int);
    let mut start = lo;
    if lo < hi && s[lo] == '+' {
        start = lo + 1;
    }
    let ghost digits = s@.subrange(start as int, hi as int);
    assert(unsigned_digits(text) =~= digits);
    if start == hi {
        return None;
    }
    let mut value: u64 = 0;
    let mut overflow = false;
    let mut i = start;
    assert(digits.take(0) =~= Seq::<char>::empty());
    while i < hi
        invariant
            lo <= start <= i <= hi <= s@.len(),
            digits == s@.subrange(start as int, hi as int),
            unsigned_digits(s@.subrange(lo as int, hi as int)) == digits,
            forall|j: int| 0 <= j < i - start ==> is_digit(#[trigger] digits[j]),
            decimal(digits.take(i - start)) >= 0,
            !overflow ==> value == decimal(digits.take(i - start)),
            overflow ==> decimal(digits.take(i - start)) > u64::MAX,
        decreases hi - i,
    {
        let c = s[i];
        let v = c as u32;
        if !(48 <= v && v <= 57) {
            assert(!is_digit(digits[i - start]));
            return None;
        }
        let d = (v - 48) as u64;
        let ghost before = digits.take(i - start);
        let ghost after = digits.take(i - start + 1);
        assert(after.drop_last() =~= before);
        assert(decimal(after) == decimal(before) * 10 + d);
        assert(decimal(before) * 10 >= decimal(before)) by (nonlinear_arith)
            requires
                decimal(before) >= 0,
        ;
        if !overflow {
            match value.checked_mul(10) {
                Some(m) => match m.checked_add(d) {
                    Some(next) => {
                        value = next;
                    },
                    None => {
                        overflow = true;
                    },
                },
                None => {
                    overflow = true;
                },
            }
        }
        i = i + 1;
    }
    assert(digits.take(hi - start) =~= digits);
    if overflow {
        None
    } else {
        Some(value)
    }
}

/// Reads a request line of the notification protocol.
pub fn classify_notification_line(line: &str) -> (r: NotificationRequest)
    ensures
        r == notification_request(line@),
{
    let chars = str_chars(line);
    let (lo, hi) = trim_bounds(&chars);
    let ghost text = chars@.subrange(lo as int, hi as int);
    if hi - lo == 4 && chars[lo] == 'P' && chars[lo + 1] == 'I' && chars[lo + 2] == 'N' && chars[lo
        + 3] == 'G' {
        assert(text =~= seq!['P', 'I', 'N', 'G']);
        return NotificationRequest::Ping;
    }
    assert(text != seq!['P', 'I', 'N', 'G']) by {
        if text.len() == 4 {
            assert(text[0] == chars@[lo as int]);
            assert(text[1] == chars@[lo + 1]);
            assert(text[2] == chars@[lo + 2]);
            assert(text[3] == chars@[lo + 3]);
        }
    }
    match parse_u64(&chars, lo, hi) {
        Some(id) => NotificationRequest::Future(id),
        None => NotificationRequest::Ignore,
    }
}

} // verus!
