//! The position history: when a driver session records a parcel's last
//! position in the history stream, and how a batch read from that stream is
//! laid out in columns for the bulk insert into the `parcel_history` table.
use vstd::prelude::*;

verus! {

/// Name of the consumer group that reads the history stream.
pub open spec fn history_group_name() -> Seq<char> {
    seq!['h', 'i', 's', 't', 'o', 'r', 'y']
}

/// The consumer group that reads the history stream.
pub fn history_group() -> (r: String)
    ensures
        r@ == history_group_name(),
{
    proof {
        reveal_strlit("history");
    }
    String::from_str("history")
}

/// Greatest number of stream entries read in one batch.
pub const HISTORY_BATCH_SIZE: usize = 1000;

/// How long one read of the history stream waits for entries, in milliseconds.
pub const HISTORY_BLOCK_MS: usize = 5000;

/// Seconds between two batches moved from the stream to the database.
pub const HISTORY_FLUSH_SECS: u64 = 60;

/// The text of an optional value, the empty text when there is none.
pub open spec fn text_or_empty(o: Option<Seq<char>>) -> Seq<char> {
    match o {
        Some(s) => s,
        None => Seq::empty(),
    }
}

/// Whether a driver session appends the parcel's last known position
/// (`current`) to the history stream, given the newest entry of the stream
/// (`newest`: `None` when the stream is empty, else that entry's payload
/// field, if it has one). An append is skipped only when the position equals
/// the newest recorded payload.
pub open spec fn records_position(
    current: Option<Seq<char>>,
    newest: Option<Option<Seq<char>>>,
) -> bool {
    match newest {
        None => true,
        Some(last) => current != Some(text_or_empty(last)),
    }
}

/// The view of an optional string slice.
pub open spec fn str_opt(o: Option<&str>) -> Option<Seq<char>> {
    match o {
        Some(s) => Some(s@),
        None => None,
    }
}

/// Decides whether to append the last known position to the history stream
/// (repeated positions are recorded once).
pub fn should_record_position(current: Option<&str>, newest: Option<Option<&str>>) -> (r: bool)
    ensures
        r == records_position(
            str_opt(current),
            match newest {
                None => None,
                Some(last) => Some(str_opt(last)),
            },
        ),
{
    match newest {
        None => true,
        Some(last) => {
            let last_text: &str = match last {
                Some(s) => s,
                None => "",
            };
            proof {
                reveal_strlit("");
                assert(text_or_empty(str_opt(last)) == last_text@);
            }
            match current {
                Some(c) => !crate::text::same_text(c, last_text),
                None => true,
            }
        },
    }
}

/// A position is recorded once: when it is the newest payload of the stream
/// it is not appended again, and any other position (or a missing one) is.
pub proof fn lemma_history_skips_only_repeats(current: Option<Seq<char>>, newest: Seq<char>)
    ensures
        !records_position(Some(newest), Some(Some(newest))),
        current != Some(newest) ==> records_position(current, Some(Some(newest))),
        records_position(current, None),
{
}

/// One entry of the history stream, with the fields the batch reads
/// (`None` where the entry lacks the field or it does not convert).
/// Coordinates are carried next to it by the caller.
pub struct HistoryEntry {
    pub parcel_id: Option<String>,
    pub driver_id: Option<String>,
    pub timestamp: Option<u64>,
    pub status: Option<String>,
}

/// The non-coordinate columns of a bulk insert into `parcel_history`.
pub struct HistoryBatch {
    pub parcel_ids: Vec<String>,
    pub driver_ids: Vec<String>,
    pub timestamps: Vec<i64>,
    pub statuses: Vec<String>,
}

pub open spec fn opt_view(o: Option<String>) -> Option<Seq<char>> {
    match o {
        Some(s) => Some(s@),
        None => None,
    }
}

/// The stored timestamp of an entry: the stream's value (0 if missing) as a
/// signed 64-bit integer, wrapping as the database column type requires.
pub open spec fn stored_timestamp(t: Option<u64>) -> i64 {
    match t {
        Some(v) => v as i64,
        None => 0,
    }
}

/// Row `i` of the batch holds entry `e`.
pub open spec fn row_holds(b: HistoryBatch, i: int, e: HistoryEntry) -> bool {
    &&& b.parcel_ids@[i]@ == text_or_empty(opt_view(e.parcel_id))
    &&& b.driver_ids@[i]@ == text_or_empty(opt_view(e.driver_id))
    &&& b.timestamps@[i] == stored_timestamp(e.timestamp)
    &&& b.statuses@[i]@ == text_or_empty(opt_view(e.status))
}

/// The batch holds the entries, one row each, in order.
pub open spec fn batch_holds(b: HistoryBatch, rows: Seq<HistoryEntry>) -> bool {
    &&& b.parcel_ids@.len() == rows.len()
    &&& b.driver_ids@.len() == rows.len()
    &&& b.timestamps@.len() == rows.len()
    &&& b.statuses@.len() == rows.len()
    &&& forall|i: int| 0 <= i < rows.len() ==> row_holds(b, i, #[trigger] rows[i])
}

/// All entries of a stream read, stream key after stream key.
pub open spec fn entries_of(keys: Seq<Vec<HistoryEntry>>) -> Seq<HistoryEntry> {
    keys.map_values(|v: Vec<HistoryEntry>| v@).flatten()
}

fn text_column_value(o: &Option<String>) -> (r: String)
    ensures
        r@ == text_or_empty(opt_view(*o)),
{
    match o {
        Some(s) => s.clone(),
        None => String::new(),
    }
}

fn timestamp_column_value(t: Option<u64>) -> (r: i64)
    ensures
        r == stored_timestamp(t),
{
    match t {
        Some(v) => v as i64,
        None => 0,
    }
}

/// Lays out the entries of one read of the history stream (grouped by stream
/// key) as insert columns; `None` when the read holds no entry, in which case
/// nothing is written to the database.
pub fn history_batch(keys: &Vec<Vec<HistoryEntry>>) -> (r: Option<HistoryBatch>)
    ensures
        match r {
            None => entries_of(keys@).len() == 0,
            Some(b) => entries_of(keys@).len() > 0 && batch_holds(b, entries_of(keys@)),
        },
{
    let ghost groups = keys@.map_values(|v: Vec<HistoryEntry>| v@);
    let mut b = HistoryBatch {
        parcel_ids: Vec::new(),
        driver_ids: Vec::new(),
        timestamps: Vec::new(),
        statuses: Vec::new(),
    };
    let ghost mut rows: Seq<HistoryEntry> = Seq::empty();
    assert(groups.take(0) =~= Seq::<Seq<HistoryEntry>>::empty());
    let mut k: usize = 0;
    while k < keys.len()
        invariant
            k <= keys.len(),
            groups == keys@.map_values(|v: Vec<HistoryEntry>| v@),
            rows == groups.take(k as int).flatten(),
            batch_holds(b, rows),
        decreases keys.len() - k,
    {
        let group = &keys[k];
        let mut j: usize = 0;
        while j < group.len()
            invariant
                k < keys.len(),
                j <= group.len(),
                group == keys@[k as int],
                groups == keys@.map_values(|v: Vec<HistoryEntry>| v@),
                rows == groups.take(k as int).flatten() + group@.take(j as int),
                batch_holds(b, rows),
            decreases group.len() - j,
        {
            let e = &group[j];
            let ghost old_rows = rows;
            let ghost old_b = b;
            b.parcel_ids.push(text_column_value(&e.parcel_id));
            b.driver_ids.push(text_column_value(&e.driver_id));
            b.timestamps.push(timestamp_column_value(e.timestamp));
            b.statuses.push(text_column_value(&e.status));
            proof {
                rows = rows.push(*e);
                assert(group@.take(j + 1) =~= group@.take(j as int).push(*e));
                assert(rows =~= groups.take(k as int).flatten() + group@.take(j + 1));
                assert forall|i: int| 0 <= i < rows.len() implies row_holds(
                    b,
                    i,
                    #[trigger] rows[i],
                ) by {
                    if i < old_rows.len() {
                        assert(rows[i] == old_rows[i]);
                        assert(row_holds(old_b, i, old_rows[i]));
                    }
                }
            }
            j = j + 1;
        }
        proof {
            assert(group@.take(group@.len() as int) =~= group@);
            assert(groups.take(k + 1) =~= groups.take(k as int).push(groups[k as int]));
            groups.take(k as int).lemma_flatten_push(groups[k as int]);
        }
        k = k + 1;
    }
    proof {
        assert(groups.take(keys@.len() as int) =~= groups);
    }
    if b.parcel_ids.len() == 0 {
        None
    } else {
        Some(b)
    }
}

} // verus!
