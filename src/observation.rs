use crate::timestamp::{
    date_from_text, from_unix_seconds, parse_date, parse_time, time_from_text, time_from_unix,
    Timestamp,
};
use vstd::prelude::*;

verus! {

/// An accepted observation: when it was made and its value as the service
/// wrote it. The value is a decimal number in text.
#[derive(Debug, Clone)]
pub struct Reading {
    pub timestamp: Timestamp,
    pub value: String,
}

impl View for Reading {
    type V = (Timestamp, Seq<char>);

    open spec fn view(&self) -> (Timestamp, Seq<char>) {
        (self.timestamp, self.value@)
    }
}

/// One entry of the latest-months feed: milliseconds since the Unix epoch, a
/// value in text and a quality flag.
#[derive(Debug, Clone)]
pub struct LatestValue {
    pub date: u64,
    pub value: String,
    pub quality: String,
}

/// The pieces of `s` between the occurrences of `sep`, in order. There is one
/// more piece than there are separators; pieces may be empty.
pub open spec fn split_spec(s: Seq<char>, sep: char) -> Seq<Seq<char>>
    decreases s.len(),
{
    if s.len() == 0 {
        seq![Seq::empty()]
    } else {
        let rest = split_spec(s.drop_first(), sep);
        if s[0] == sep {
            seq![Seq::empty()] + rest
        } else {
            rest.update(0, seq![s[0]] + rest[0])
        }
    }
}

/// Whether `q` is a flag of an accepted observation: `G` (approved) or `Y`
/// (preliminary).
pub open spec fn is_accepted_quality(q: Seq<char>) -> bool {
    q == "G"@ || q == "Y"@
}

/// The reading that one archive row gives: the row has at least four
/// `;`-separated columns, a date in the first, a time in the second and an
/// accepted quality flag in the fourth; the third is the value.
pub open spec fn row_reading(row: Seq<char>) -> Option<(Timestamp, Seq<char>)> {
    let cols = split_spec(row, ';');
    if cols.len() < 4 {
        None
    } else {
        match (date_from_text(cols[0]), time_from_text(cols[1])) {
            (Some(d), Some(t)) => if is_accepted_quality(cols[3]) {
                Some((Timestamp { date: d, time: t }, cols[2]))
            } else {
                None
            },
            _ => None,
        }
    }
}

/// The readings of the rows that give one, in the order of the rows.
pub open spec fn rows_readings(rows: Seq<Seq<char>>) -> Seq<(Timestamp, Seq<char>)>
    decreases rows.len(),
{
    if rows.len() == 0 {
        Seq::empty()
    } else {
        let init = rows_readings(rows.drop_last());
        match row_reading(rows.last()) {
            Some(x) => init.push(x),
            None => init,
        }
    }
}

/// The readings of an archive document: one for each of its lines that gives one.
pub open spec fn archive_readings(text: Seq<char>) -> Seq<(Timestamp, Seq<char>)> {
    rows_readings(split_spec(text, '\n'))
}

/// The reading that one latest-months entry gives: its instant, taken to the
/// whole second, can be represented and its quality flag is accepted.
pub open spec fn entry_reading(e: LatestValue) -> Option<(Timestamp, Seq<char>)> {
    match time_from_unix((e.date / 1000) as int) {
        Some(t) => if is_accepted_quality(e.quality@) {
            Some((t, e.value@))
        } else {
            None
        },
        None => None,
    }
}

/// The readings of the entries that give one, in the order of the entries.
pub open spec fn entries_readings(es: Seq<LatestValue>) -> Seq<(Timestamp, Seq<char>)>
    decreases es.len(),
{
    if es.len() == 0 {
        Seq::empty()
    } else {
        let init = entries_readings(es.drop_last());
        match entry_reading(es.last()) {
            Some(x) => init.push(x),
            None => init,
        }
    }
}

/// The views of a list of readings.
pub open spec fn readings_view(rs: Seq<Reading>) -> Seq<(Timestamp, Seq<char>)> {
    rs.map_values(|r: Reading| r@)
}

/// Rows are read one by one: the readings of two runs of rows put together are
/// the readings of the first followed by those of the second, so a row that
/// is skipped changes nothing for its neighbours.
pub proof fn lemma_rows_independent(a: Seq<Seq<char>>, b: Seq<Seq<char>>)
    ensures
        rows_readings(a + b) == rows_readings(a) + rows_readings(b),
    decreases b.len(),
{
    if b.len() == 0 {
        assert(a + b =~= a);
        assert(rows_readings(a) + Seq::empty() =~= rows_readings(a));
    } else {
        assert((a + b).drop_last() =~= a + b.drop_last());
        assert((a + b).last() == b.last());
        lemma_rows_independent(a, b.drop_last());
        match row_reading(b.last()) {
            Some(x) => {
                assert(rows_readings(a) + rows_readings(b.drop_last()).push(x) =~= (rows_readings(
                    a,
                ) + rows_readings(b.drop_last())).push(x));
            },
            None => {},
        }
    }
}

/// A single row gives exactly the one reading that its columns describe, or
/// none when it breaks one of the conditions.
pub proof fn lemma_single_row(row: Seq<char>)
    ensures
        rows_readings(seq![row]) == match row_reading(row) {
            Some(x) => seq![x],
            None => Seq::<(Timestamp, Seq<char>)>::empty(),
        },
{
    assert(seq![row].drop_last() =~= Seq::<Seq<char>>::empty());
    assert(seq![row].last() == row);
    assert(rows_readings(Seq::<Seq<char>>::empty()) == Seq::<(Timestamp, Seq<char>)>::empty());
    assert(Seq::<(Timestamp, Seq<char>)>::empty().push(row_reading(row)->Some_0) =~= seq![
        row_reading(row)->Some_0,
    ]);
}

/// Latest-months entries are read one by one: the readings of two runs of
/// entries put together are those of the first followed by those of the second.
pub proof fn lemma_entries_independent(a: Seq<LatestValue>, b: Seq<LatestValue>)
    ensures
        entries_readings(a + b) == entries_readings(a) + entries_readings(b),
    decreases b.len(),
{
    if b.len() == 0 {
        assert(a + b =~= a);
        assert(entries_readings(a) + Seq::empty() =~= entries_readings(a));
    } else {
        assert((a + b).drop_last() =~= a + b.drop_last());
        assert((a + b).last() == b.last());
        lemma_entries_independent(a, b.drop_last());
        match entry_reading(b.last()) {
            Some(x) => {
                assert(entries_readings(a) + entries_readings(b.drop_last()).push(x) =~= (
                entries_readings(a) + entries_readings(b.drop_last())).push(x));
            },
            None => {},
        }
    }
}

/// An entry whose quality flag is neither `G` nor `Y` gives no reading,
/// whatever its instant and value.
pub proof fn lemma_entry_quality_rejected(e: LatestValue)
    requires
        !is_accepted_quality(e.quality@),
    ensures
        entry_reading(e).is_none(),
        entries_readings(seq![e]) == Seq::<(Timestamp, Seq<char>)>::empty(),
{
    assert(seq![e].drop_last() =~= Seq::<LatestValue>::empty());
    assert(seq![e].last() == e);
    assert(entries_readings(Seq::<LatestValue>::empty()) == Seq::<(Timestamp, Seq<char>)>::empty());
}

/// Relies on `str::split` with a `char` pattern: the substrings between the
/// matches, in order, empty ones included.
#[verifier::external_body]
fn split_on(s: &str, sep: char) -> (r: Vec<String>)
    ensures
        r@.len() == split_spec(s@, sep).len(),
        forall|i: int| 0 <= i < r@.len() ==> #[trigger] r@[i]@ == split_spec(s@, sep)[i],
{
    s.split(sep).map(String::from).collect()
}

/// Whether `q` is `G` or `Y`.
pub fn accepted_quality(q: &str) -> (r: bool)
    ensures
        r == is_accepted_quality(q@),
{
    proof {
        reveal_strlit("G");
        reveal_strlit("Y");
    }
    if q.unicode_len() != 1 {
        return false;
    }
    let c = q.get_char(0);
    proof {
        if c == 'G' {
            assert(q@ =~= "G"@);
        }
        if c == 'Y' {
            assert(q@ =~= "Y"@);
        }
    }
    c == 'G' || c == 'Y'
}

/// The reading that one archive row gives, if it gives one.
pub fn parse_row(row: &str) -> (r: Option<Reading>)
    ensures
        r.is_some() == row_reading(row@).is_some(),
        r.is_some() ==> r.unwrap()@ == row_reading(row@).unwrap(),
{
    let cols = split_on(row, ';');
    if cols.len() < 4 {
        return None;
    }
    let date = match parse_date(cols[0].as_str()) {
        Some(d) => d,
        None => return None,
    };
    let time = match parse_time(cols[1].as_str()) {
        Some(t) => t,
        None => return None,
    };
    if !accepted_quality(cols[3].as_str()) {
        return None;
    }
    Some(Reading { timestamp: Timestamp { date, time }, value: cols[2].clone() })
}

/// The readings of an archive document: each line is a row of `;`-separated
/// columns, and the rows that give no reading are skipped.
pub fn parse_archive(text: &str) -> (r: Vec<Reading>)
    ensures
        readings_view(r@) == archive_readings(text@),
{
    let rows = split_on(text, '\n');
    let ghost rs = split_spec(text@, '\n');
    let mut out: Vec<Reading> = Vec::new();
    let mut i: usize = 0;
    while i < rows.len()
        invariant
            i <= rows@.len(),
            rows@.len() == rs.len(),
            forall|k: int| 0 <= k < rows@.len() ==> #[trigger] rows@[k]@ == rs[k],
            readings_view(out@) == rows_readings(rs.subrange(0, i as int)),
        decreases rows@.len() - i,
    {
        let ghost before = out@;
        let found = parse_row(rows[i].as_str());
        proof {
            assert(rs.subrange(0, i + 1).drop_last() =~= rs.subrange(0, i as int));
            assert(rs.subrange(0, i + 1).last() == rows@[i as int]@);
        }
        match found {
            Some(x) => {
                out.push(x);
                proof {
                    assert(readings_view(out@) =~= readings_view(before).push(x@));
                }
            },
            None => {},
        }
        i = i + 1;
    }
    proof {
        assert(rs.subrange(0, rs.len() as int) =~= rs);
    }
    out
}

/// The reading that one latest-months entry gives, if it gives one.
pub fn entry_to_reading(e: &LatestValue) -> (r: Option<Reading>)
    ensures
        r.is_some() == entry_reading(*e).is_some(),
        r.is_some() ==> r.unwrap()@ == entry_reading(*e).unwrap(),
{
    let secs = (e.date / 1000) as i64;
    let t = match from_unix_seconds(secs) {
        Some(t) => t,
        None => return None,
    };
    if !accepted_quality(e.quality.as_str()) {
        return None;
    }
    Some(Reading { timestamp: t, value: e.value.clone() })
}

/// The readings of the latest-months entries that give one, in order.
pub fn latest_readings(entries: &Vec<LatestValue>) -> (r: Vec<Reading>)
    ensures
        readings_view(r@) == entries_readings(entries@),
{
    let mut out: Vec<Reading> = Vec::new();
    let mut i: usize = 0;
    while i < entries.len()
        invariant
            i <= entries@.len(),
            readings_view(out@) == entries_readings(entries@.subrange(0, i as int)),
        decreases entries@.len() - i,
    {
        let ghost before = out@;
        let found = entry_to_reading(&entries[i]);
        proof {
            assert(entries@.subrange(0, i + 1).drop_last() =~= entries@.subrange(0, i as int));
        }
        match found {
            Some(x) => {
                out.push(x);
                proof {
                    assert(readings_view(out@) =~= readings_view(before).push(x@));
                }
            },
            None => {},
        }
        i = i + 1;
    }
    proof {
        assert(entries@.subrange(0, entries@.len() as int) =~= entries@);
    }
    out
}

/// The series of a station: the readings of the archive document followed by
/// those of the latest-months entries, each in its own order, neither sorted
/// nor freed of duplicates.
pub fn assemble_readings(archive: &str, latest: &Vec<LatestValue>) -> (r: Vec<Reading>)
    ensures
        readings_view(r@) == archive_readings(archive@) + entries_readings(latest@),
{
    let mut out = parse_archive(archive);
    let mut recent = latest_readings(latest);
    let ghost a = out@;
    let ghost b = recent@;
    out.append(&mut recent);
    proof {
        assert(out@ =~= a + b);
        assert(readings_view(out@) =~= readings_view(a) + readings_view(b));
    }
    out
}

} // verus!
