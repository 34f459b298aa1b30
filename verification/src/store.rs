//! What the persistence layer decides: match statuses and their codes, the
//! generation counter as it is stored, list limits, and replaying a match's
//! events to a watcher without repeating one.

use vstd::prelude::*;
use vstd::string::*;

use crate::text::{decimal, decimal_string, digits_value, parse_u32, parse_u32_spec, unsigned_digits, all_ascii_digits};

verus! {

#[derive(PartialEq, Eq, Structural, Clone, Copy, Debug)]
pub enum MatchStatus {
    Unspecified,
    Pending,
    GeneratingGame,
    InProgress,
    Reflecting,
    Completed,
    Failed,
}

/// Whether a match with this status is still meant to be running.
pub open spec fn active(status: MatchStatus) -> bool {
    ||| status == MatchStatus::Pending
    ||| status == MatchStatus::GeneratingGame
    ||| status == MatchStatus::InProgress
    ||| status == MatchStatus::Reflecting
}

pub fn is_active_status(status: MatchStatus) -> (r: bool)
    ensures
        r == active(status),
{
    match status {
        MatchStatus::Pending | MatchStatus::GeneratingGame | MatchStatus::InProgress
        | MatchStatus::Reflecting => true,
        _ => false,
    }
}

/// The number a status is stored as.
pub open spec fn status_code(status: MatchStatus) -> i32 {
    match status {
        MatchStatus::Unspecified => 0,
        MatchStatus::Pending => 1,
        MatchStatus::GeneratingGame => 2,
        MatchStatus::InProgress => 3,
        MatchStatus::Reflecting => 4,
        MatchStatus::Completed => 5,
        MatchStatus::Failed => 6,
    }
}

impl MatchStatus {
    pub fn code(&self) -> (r: i32)
        ensures
            r == status_code(*self),
    {
        match self {
            MatchStatus::Unspecified => 0,
            MatchStatus::Pending => 1,
            MatchStatus::GeneratingGame => 2,
            MatchStatus::InProgress => 3,
            MatchStatus::Reflecting => 4,
            MatchStatus::Completed => 5,
            MatchStatus::Failed => 6,
        }
    }

    /// The status stored as `code`; an unknown code reads as unspecified.
    pub fn from_code(code: i32) -> (r: MatchStatus)
        ensures
            0 <= code <= 6 ==> status_code(r) == code,
            !(0 <= code <= 6) ==> r == MatchStatus::Unspecified,
    {
        match code {
            1 => MatchStatus::Pending,
            2 => MatchStatus::GeneratingGame,
            3 => MatchStatus::InProgress,
            4 => MatchStatus::Reflecting,
            5 => MatchStatus::Completed,
            6 => MatchStatus::Failed,
            _ => MatchStatus::Unspecified,
        }
    }
}

/// Reading a stored status code gives back the status stored.
pub proof fn status_code_round_trip(status: MatchStatus)
    ensures
        0 <= status_code(status) <= 6,
        forall|s: MatchStatus| status_code(s) == status_code(status) ==> s == status,
{
}

/// How many matches a listing returns: 50 when no limit is asked for.
pub fn effective_limit(limit: u32) -> (r: u32)
    ensures
        r == if limit == 0 {
            50
        } else {
            limit
        },
{
    if limit == 0 {
        50
    } else {
        limit
    }
}

/// The generation number a stored counter value stands for: the value parsed
/// as a `u32`, or 0 when there is no value or it does not parse.
pub open spec fn generation_of(value: Option<Seq<char>>) -> u32 {
    match value {
        Some(v) => match parse_u32_spec(v) {
            Some(g) => g,
            None => 0,
        },
        None => 0,
    }
}

pub fn generation_from_meta(value: Option<&str>) -> (r: u32)
    ensures
        r == generation_of(
            match value {
                Some(v) => Some(v@),
                None => None,
            },
        ),
{
    match value {
        Some(v) => match parse_u32(v) {
            Some(g) => g,
            None => 0,
        },
        None => 0,
    }
}

/// The counter value a generation number is stored as: its decimal text.
pub fn generation_to_meta(generation: u32) -> (r: String)
    ensures
        r@ == decimal(generation as nat),
{
    decimal_string(generation as u64)
}

proof fn lemma_decimal_digits(n: nat)
    ensures
        decimal(n).len() > 0,
        all_ascii_digits(decimal(n)),
        digits_value(decimal(n)) == n,
        decimal(n)[0] != '+',
    decreases n,
{
    let d = decimal(n);
    if n < 10 {
        assert(d == seq![crate::text::digit_char(n)]);
        assert(d.drop_last() =~= Seq::<char>::empty());
        assert((48 + n) as char as u32 == 48 + n);
        assert(d.last() == crate::text::digit_char(n));
        assert(digits_value(d) == digits_value(d.drop_last()) * 10 + (d.last() as u32 - 48) as nat);
    } else {
        lemma_decimal_digits(n / 10);
        let c = crate::text::digit_char(n % 10);
        assert(d == decimal(n / 10).push(c));
        assert(d.drop_last() =~= decimal(n / 10));
        assert((48 + n % 10) as char as u32 == 48 + n % 10);
        assert(d.last() == c);
        assert(digits_value(d) == digits_value(d.drop_last()) * 10 + (d.last() as u32 - 48) as nat);
        assert((n / 10) * 10 + n % 10 == n) by (nonlinear_arith);
        assert forall|i: int| 0 <= i < d.len() implies crate::text::is_ascii_digit(#[trigger] d[i]) by {
            if i < d.len() - 1 {
                assert(d[i] == decimal(n / 10)[i]);
            }
        }
        assert(d[0] == decimal(n / 10)[0]);
    }
}

/// Reading back a stored generation gives the generation stored.
pub proof fn generation_meta_round_trip(generation: u32)
    ensures
        generation_of(Some(decimal(generation as nat))) == generation,
{
    lemma_decimal_digits(generation as nat);
    assert(unsigned_digits(decimal(generation as nat)) == decimal(generation as nat));
}

/// The message of a match found interrupted when the server starts.
pub fn interrupted_message() -> (r: String)
    ensures
        r@ == "Match interrupted (server restarted while this match was running)."@,
{
    String::from_str("Match interrupted (server restarted while this match was running).")
}

/// The message of a match that a watcher finds no longer running.
pub fn abandoned_message() -> (r: String)
    ensures
        r@ == "Match is no longer running (server restarted or the task ended)."@,
{
    String::from_str("Match is no longer running (server restarted or the task ended).")
}

/// Whether a watcher that finds no live event stream for a match must mark
/// it failed: exactly when its status says it is still running.
pub fn abandoned_on_watch(has_live_stream: bool, status: MatchStatus) -> (r: bool)
    ensures
        r == (!has_live_stream && active(status)),
{
    !has_live_stream && is_active_status(status)
}

/// Replays a match's stored events to a watcher and then its live ones,
/// passing each event at most once: a live event is passed only if its
/// sequence number is past the last one passed.
pub struct ReplayCursor {
    pub last_seq: i64,
}

impl ReplayCursor {
    /// A cursor that has passed nothing.
    pub fn new() -> (r: Self)
        ensures
            r.last_seq == -1,
    {
        ReplayCursor { last_seq: -1 }
    }

    /// Records that a stored event was passed (stored events come in order).
    pub fn replayed(&mut self, seq: i64)
        ensures
            final(self).last_seq == seq,
    {
        self.last_seq = seq;
    }

    /// Whether to pass a live event; passing it moves the cursor.
    pub fn admit_live(&mut self, seq: i64) -> (r: bool)
        ensures
            forall|rest: Seq<i64>|
                #![trigger passed(old(self).last_seq, seq![seq] + rest)]
                passed(old(self).last_seq, seq![seq] + rest) == if r {
                    seq![seq] + passed(final(self).last_seq, rest)
                } else {
                    passed(final(self).last_seq, rest)
                },
            r == (seq > old(self).last_seq),
            final(self).last_seq == if r {
                seq
            } else {
                old(self).last_seq
            },
    {
        proof {
            assert forall|rest: Seq<i64>| #![trigger passed(self.last_seq, seq![seq] + rest)]
                (seq![seq] + rest).drop_first() == rest by {
                assert((seq![seq] + rest).drop_first() =~= rest);
            }
        }
        if seq > self.last_seq {
            self.last_seq = seq;
            true
        } else {
            false
        }
    }
}

/// The live events that a cursor at `last` passes, of those with sequence
/// numbers `seqs`, in arrival order.
pub open spec fn passed(last: i64, seqs: Seq<i64>) -> Seq<i64>
    decreases seqs.len(),
{
    if seqs.len() == 0 {
        Seq::empty()
    } else if seqs[0] > last {
        seq![seqs[0]] + passed(seqs[0], seqs.drop_first())
    } else {
        passed(last, seqs.drop_first())
    }
}

/// Whatever order live events arrive in, a cursor passes them in strictly
/// rising order of sequence number, all past the last event replayed: no
/// event reaches a watcher twice.
pub proof fn replay_passes_rising(last: i64, seqs: Seq<i64>)
    ensures
        forall|i: int| 0 <= i < passed(last, seqs).len() ==> #[trigger] passed(last, seqs)[i] > last,
        forall|i: int, j: int|
            0 <= i < j < passed(last, seqs).len() ==> #[trigger] passed(last, seqs)[i] < #[trigger] passed(
                last,
                seqs,
            )[j],
    decreases seqs.len(),
{
    if seqs.len() > 0 {
        if seqs[0] > last {
            replay_passes_rising(seqs[0], seqs.drop_first());
            let rest = passed(seqs[0], seqs.drop_first());
            let all = passed(last, seqs);
            assert(all == seq![seqs[0]] + rest);
            assert forall|i: int| 0 <= i < all.len() implies #[trigger] all[i] > last by {
                if i > 0 {
                    assert(all[i] == rest[i - 1]);
                }
            }
            assert forall|i: int, j: int| 0 <= i < j < all.len() implies #[trigger] all[i] < #[trigger] all[j] by {
                assert(all[j] == rest[j - 1]);
                assert(rest[j - 1] > seqs[0]);
                if i > 0 {
                    assert(all[i] == rest[i - 1]);
                } else {
                    assert(all[i] == seqs[0]);
                }
            }
        } else {
            replay_passes_rising(last, seqs.drop_first());
            assert(passed(last, seqs) == passed(last, seqs.drop_first()));
        }
    }
}

} // verus!
