//! What the fetch stage decides: which blocks to ask for, and which
//! transactions to keep.

use vstd::prelude::*;
use vstd::string::*;
use crate::pubkey::Pubkey;
use crate::search::{first_index, lemma_first_index, lemma_no_first_index};
use crate::transaction::TransactionWithStatusMeta;
use crate::trusted::{
    check_metadata_program, check_token_program, is_metadata_program, is_token_program,
};

verus! {

/// A decimal digit.
pub open spec fn is_digit(c: char) -> bool {
    '0' <= c <= '9'
}

/// A text of decimal digits only.
pub open spec fn all_digits(text: Seq<char>) -> bool {
    forall|i: int| 0 <= i < text.len() ==> is_digit(#[trigger] text[i])
}

/// The number that a text of decimal digits writes.
pub open spec fn decimal_value(text: Seq<char>) -> nat
    decreases text.len(),
{
    if text.len() == 0 {
        0
    } else {
        (decimal_value(text.drop_last()) * 10 + (text.last() as int - '0' as int)) as nat
    }
}

/// The slot that a text writes: one or more decimal digits, of a value that
/// fits 64 bits.
pub open spec fn slot_of(text: Seq<char>) -> Option<u64> {
    if text.len() > 0 && all_digits(text) && decimal_value(text) <= u64::MAX {
        Some(decimal_value(text) as u64)
    } else {
        None
    }
}

/// The block range that a text writes: a first slot, a dash and a last slot,
/// the first not after the last.
pub open spec fn block_range_of(text: Seq<char>) -> Option<(u64, u64)> {
    match first_index(text, |c: char| c == '-') {
        None => None,
        Some(dash) => match (
            slot_of(text.subrange(0, dash)),
            slot_of(text.subrange(dash + 1, text.len() as int)),
        ) {
            (Some(start), Some(end)) => if start <= end {
                Some((start, end))
            } else {
                None
            },
            _ => None,
        },
    }
}

/// A longer text of digits writes no smaller number.
pub proof fn lemma_decimal_value_grows(text: Seq<char>, n: int)
    requires
        all_digits(text),
        0 <= n <= text.len(),
    ensures
        decimal_value(text.subrange(0, n)) <= decimal_value(text),
    decreases text.len() - n,
{
    if n < text.len() {
        let shorter = text.drop_last();
        assert(shorter.subrange(0, n) =~= text.subrange(0, n));
        assert(all_digits(shorter)) by {
            assert forall|i: int| 0 <= i < shorter.len() implies is_digit(#[trigger] shorter[i]) by {
                assert(shorter[i] == text[i]);
            }
        }
        lemma_decimal_value_grows(shorter, n);
        assert(is_digit(text.last()));
    } else {
        assert(text.subrange(0, n) =~= text);
    }
}

/// Reads the slot that the bytes from `from` up to `to` write.
fn parse_slot(bytes: &[u8], from: usize, to: usize, Ghost(text): Ghost<Seq<char>>) -> (slot: Option<
    u64,
>)
    requires
        from <= to <= bytes@.len(),
        text.len() == bytes@.len(),
        forall|i: int| 0 <= i < text.len() ==> '\0' <= #[trigger] text[i] <= '\u{7f}',
        forall|i: int| 0 <= i < text.len() ==> bytes@[i] == #[trigger] text[i] as u8,
    ensures
        slot == slot_of(text.subrange(from as int, to as int)),
{
    let ghost part = text.subrange(from as int, to as int);
    if from == to {
        return None;
    }
    let mut value: u64 = 0;
    let mut i: usize = from;
    while i < to
        invariant
            from <= i <= to <= bytes@.len(),
            text.len() == bytes@.len(),
            part == text.subrange(from as int, to as int),
            forall|k: int| 0 <= k < text.len() ==> '\0' <= #[trigger] text[k] <= '\u{7f}',
            forall|k: int| 0 <= k < text.len() ==> bytes@[k] == #[trigger] text[k] as u8,
            all_digits(part.subrange(0, i - from)),
            value == decimal_value(part.subrange(0, i - from)),
        decreases to - i,
    {
        let byte = bytes[i];
        let ghost c = text[i as int];
        assert(part[i - from] == c);
        assert(byte == c as u8);
        if byte < 0x30 || byte > 0x39 {
            assert(!is_digit(part[i - from]));
            return None;
        }
        assert(is_digit(c));
        let digit = (byte - 0x30) as u64;
        let ghost longer = part.subrange(0, i - from + 1);
        proof {
            assert(longer.drop_last() =~= part.subrange(0, i - from));
            assert(longer.last() == c);
            assert(all_digits(longer)) by {
                assert forall|k: int| 0 <= k < longer.len() implies is_digit(
                    #[trigger] longer[k],
                ) by {
                    if k < i - from {
                        assert(part.subrange(0, i - from)[k] == longer[k]);
                    }
                }
            }
            assert(decimal_value(longer) == value * 10 + digit);
        }
        let grown = match value.checked_mul(10) {
            Some(tens) => tens.checked_add(digit),
            None => None,
        };
        match grown {
            Some(next) => {
                value = next;
            },
            None => {
                proof {
                    assert(decimal_value(longer) > u64::MAX);
                    if all_digits(part) {
                        lemma_decimal_value_grows(part, i - from + 1);
                    }
                }
                return None;
            },
        }
        i += 1;
    }
    assert(part.subrange(0, to - from) =~= part);
    Some(value)
}

/// Reads a block range: a first slot, a dash and a last slot, each of one
/// or more decimal digits, the first not after the last.
pub fn parse_block_range(text: &str) -> (range: Option<(u64, u64)>)
    ensures
        range == block_range_of(text@),
{
    let ghost is_dash = |c: char| c == '-';
    if !text.is_ascii() {
        proof {
            let k = choose|k: int| 0 <= k < text@.len() && !('\0' <= #[trigger] text@[k] <= '\u{7f}');
            match first_index(text@, is_dash) {
                Some(dash) => {
                    crate::search::lemma_first_index_is_first(text@, is_dash);
                    if k < dash {
                        let first = text@.subrange(0, dash);
                        assert(first[k] == text@[k]);
                        assert(!is_digit(first[k]));
                    } else {
                        let last = text@.subrange(dash + 1, text@.len() as int);
                        assert(k != dash);
                        assert(last[k - dash - 1] == text@[k]);
                        assert(!is_digit(last[k - dash - 1]));
                    }
                },
                None => {},
            }
        }
        return None;
    }
    proof {
        is_ascii_spec_bytes(text);
    }
    let bytes = text.as_bytes();
    let mut dash: usize = 0;
    while dash < bytes.len() && bytes[dash] != 0x2d
        invariant
            0 <= dash <= bytes@.len(),
            bytes@.len() == text@.len(),
            is_dash == (|c: char| c == '-'),
            forall|k: int| 0 <= k < text@.len() ==> '\0' <= #[trigger] text@[k] <= '\u{7f}',
            forall|k: int| 0 <= k < text@.len() ==> bytes@[k] == #[trigger] text@[k] as u8,
            forall|j: int| 0 <= j < dash ==> !is_dash(#[trigger] text@[j]),
        decreases bytes@.len() - dash,
    {
        assert(text@[dash as int] != '-');
        dash += 1;
    }
    if dash == bytes.len() {
        proof {
            lemma_no_first_index(text@, is_dash);
        }
        return None;
    }
    proof {
        assert(bytes@[dash as int] == text@[dash as int] as u8);
        assert(text@[dash as int] == '-');
        lemma_first_index(text@, is_dash, dash as int);
    }
    let start = parse_slot(bytes, 0, dash, Ghost(text@));
    let end = parse_slot(bytes, dash + 1, bytes.len(), Ghost(text@));
    match (start, end) {
        (Some(start), Some(end)) => if start <= end {
            Some((start, end))
        } else {
            None
        },
        _ => None,
    }
}


/// How many blocks the fetch stage asks for at a time, at most.
pub const CHUNK_SIZE: u64 = 16;

/// How far the fetch stage has come in its block range.
#[derive(Clone, Copy, Debug, PartialEq, Eq)]
pub struct FetchPlan {
    /// The slot to ask from next; `None` once no slot is left to ask from.
    pub chunk_start: Option<u64>,
    pub block_end: u64,
}

/// What the fetch stage does next.
#[derive(Clone, Copy, Debug, PartialEq, Eq, Structural)]
pub enum FetchStep {
    /// List up to `limit` confirmed blocks from slot `start` on, and fetch
    /// them.
    ListBlocks { start: u64, limit: usize },
    Finish,
}

impl FetchPlan {
    /// The plan for a block range.
    pub fn new(block_start: u64, block_end: u64) -> (plan: FetchPlan)
        ensures
            plan == (FetchPlan { chunk_start: Some(block_start), block_end }),
    {
        FetchPlan { chunk_start: Some(block_start), block_end }
    }

    /// The next step: as long as the slot to ask from lies before the end of
    /// the range, a chunk of at most `CHUNK_SIZE` blocks that does not reach
    /// past the end.
    pub open spec fn next_step(self) -> FetchStep {
        match self.chunk_start {
            Some(start) => if start < self.block_end {
                FetchStep::ListBlocks {
                    start,
                    limit: if self.block_end - start < CHUNK_SIZE {
                        (self.block_end - start) as usize
                    } else {
                        CHUNK_SIZE as usize
                    },
                }
            } else {
                FetchStep::Finish
            },
            None => FetchStep::Finish,
        }
    }

    /// The plan after a chunk: the next one starts after the last slot that
    /// was listed, or after the end of the range where none was.
    pub open spec fn after_chunk(self, chunk_slots: Seq<u64>) -> FetchPlan {
        let last = if chunk_slots.len() > 0 {
            chunk_slots.last()
        } else {
            self.block_end
        };
        FetchPlan {
            chunk_start: if last < u64::MAX {
                Some((last + 1) as u64)
            } else {
                None
            },
            block_end: self.block_end,
        }
    }

    pub fn step(&self) -> (step: FetchStep)
        ensures
            step == self.next_step(),
    {
        match self.chunk_start {
            Some(start) => if start < self.block_end {
                let left = self.block_end - start;
                let limit: usize = if left < CHUNK_SIZE {
                    left as usize
                } else {
                    CHUNK_SIZE as usize
                };
                FetchStep::ListBlocks { start, limit }
            } else {
                FetchStep::Finish
            },
            None => FetchStep::Finish,
        }
    }

    pub fn listed(&self, chunk_slots: &[u64]) -> (plan: FetchPlan)
        ensures
            plan == self.after_chunk(chunk_slots@),
    {
        let last = if chunk_slots.len() > 0 {
            chunk_slots[chunk_slots.len() - 1]
        } else {
            self.block_end
        };
        FetchPlan { chunk_start: last.checked_add(1), block_end: self.block_end }
    }
}

/// Whether an account table names the token program or the metadata program.
pub open spec fn names_tracked_program(account_keys: Seq<Pubkey>) -> bool {
    exists|i: int|
        0 <= i < account_keys.len() && (is_token_program((#[trigger] account_keys[i])@)
            || is_metadata_program(account_keys[i]@))
}

/// Whether an account table names the token program or the metadata program.
pub fn mentions_tracked_program(account_keys: &[Pubkey]) -> (found: bool)
    ensures
        found == names_tracked_program(account_keys@),
{
    let mut i: usize = 0;
    while i < account_keys.len()
        invariant
            0 <= i <= account_keys@.len(),
            forall|j: int|
                0 <= j < i ==> !(is_token_program((#[trigger] account_keys@[j])@)
                    || is_metadata_program(account_keys@[j]@)),
        decreases account_keys@.len() - i,
    {
        if check_token_program(&account_keys[i]) || check_metadata_program(&account_keys[i]) {
            return true;
        }
        i += 1;
    }
    false
}

/// Whether a stage works on a transaction: not on one that failed.
pub fn is_replayed(transaction: &TransactionWithStatusMeta) -> (replayed: bool)
    ensures
        replayed == !transaction.is_failed(),
{
    !transaction.failed()
}

/// Whether the fetch stage stores a transaction: one that did not fail and
/// names the token program or the metadata program.
pub fn is_stored(transaction: &TransactionWithStatusMeta) -> (stored: bool)
    ensures
        stored == (!transaction.is_failed() && names_tracked_program(transaction.account_table())),
{
    if transaction.failed() {
        return false;
    }
    let account_keys = transaction.account_keys();
    mentions_tracked_program(account_keys.as_slice())
}

} // verus!
