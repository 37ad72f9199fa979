use vstd::prelude::*;
use vstd::string::StrSliceExecFns;
use vstd::string::StringExecFns;
use crate::patch::Patch;
use crate::patch::PatchModel;

verus! {

/// A decimal digit, by code point.
pub open spec fn is_digit(c: char) -> bool {
    48 <= c as u32 && c as u32 <= 57
}

/// The numeric value of one decimal digit.
pub open spec fn digit_val(c: char) -> int {
    c as u32 - 48
}

/// The base-ten value of a run of digits.
pub open spec fn digits_value(s: Seq<char>) -> int
    decreases s.len(),
{
    if s.len() == 0 {
        0
    } else {
        digits_value(s.drop_last()) * 10 + digit_val(s.last())
    }
}

/// Every character of the sequence is a decimal digit.
pub open spec fn all_digits(s: Seq<char>) -> bool {
    forall|j: int| 0 <= j < s.len() ==> is_digit(#[trigger] s[j])
}

/// The indices of the tab characters of a line, in ascending order.
pub open spec fn tab_indices(s: Seq<char>) -> Seq<int>
    decreases s.len(),
{
    if s.len() == 0 {
        Seq::empty()
    } else if s.last() == '\t' {
        tab_indices(s.drop_last()).push(s.len() - 1)
    } else {
        tab_indices(s.drop_last())
    }
}

/// The program-change field: everything before the first tab.
pub open spec fn pc_span(s: Seq<char>) -> Seq<char> {
    s.subrange(0, tab_indices(s)[0])
}

/// The bank MSB field, between the first and second tabs.
pub open spec fn msb_span(s: Seq<char>) -> Seq<char> {
    s.subrange(tab_indices(s)[0] + 1, tab_indices(s)[1])
}

/// The bank LSB field, between the second and third tabs.
pub open spec fn lsb_span(s: Seq<char>) -> Seq<char> {
    s.subrange(tab_indices(s)[1] + 1, tab_indices(s)[2])
}

/// The name field, between the third and fourth tabs.
pub open spec fn name_span(s: Seq<char>) -> Seq<char> {
    s.subrange(tab_indices(s)[2] + 1, tab_indices(s)[3])
}

/// The category field: everything after the fourth tab.
pub open spec fn category_span(s: Seq<char>) -> Seq<char> {
    s.subrange(tab_indices(s)[3] + 1, s.len() as int)
}

/// A line matches the record shape: exactly five tab-separated fields, all
/// non-empty, the first three made of digits only. Lines that do not match
/// are skipped, never an error.
pub open spec fn line_matches(s: Seq<char>) -> bool {
    let t = tab_indices(s);
    &&& t.len() == 4
    &&& 0 < t[0]
    &&& t[0] + 1 < t[1]
    &&& t[1] + 1 < t[2]
    &&& t[2] + 1 < t[3]
    &&& t[3] + 1 < s.len()
    &&& all_digits(pc_span(s))
    &&& all_digits(msb_span(s))
    &&& all_digits(lsb_span(s))
}

/// The three numeric fields of a matching line all fit the seven-bit range.
pub open spec fn line_in_range(s: Seq<char>) -> bool {
    &&& digits_value(pc_span(s)) <= 127
    &&& digits_value(msb_span(s)) <= 127
    &&& digits_value(lsb_span(s)) <= 127
}

/// A line that matches the record shape but carries a numeric field outside
/// the seven-bit range: such a line fails the whole load.
pub open spec fn line_bad(s: Seq<char>) -> bool {
    line_matches(s) && !line_in_range(s)
}

/// The record a matching line denotes.
pub open spec fn line_model(s: Seq<char>) -> PatchModel {
    PatchModel {
        pc: digits_value(pc_span(s)),
        msb: digits_value(msb_span(s)),
        lsb: digits_value(lsb_span(s)),
        name: name_span(s),
        category: category_span(s),
    }
}

/// The catalog a sequence of lines denotes: the records of the matching
/// lines, in file order, duplicates preserved.
pub open spec fn catalog_of(ls: Seq<Seq<char>>) -> Seq<PatchModel>
    decreases ls.len(),
{
    if ls.len() == 0 {
        Seq::empty()
    } else {
        let rest = catalog_of(ls.drop_last());
        if line_matches(ls.last()) {
            rest.push(line_model(ls.last()))
        } else {
            rest
        }
    }
}

/// Catalog loading is deterministic: the catalog is a function of the source
/// lines alone, so re-loading a fixed file yields an identical sequence of
/// records in the same order.
pub proof fn lemma_load_deterministic(a: Seq<Seq<char>>, b: Seq<Seq<char>>)
    requires
        a == b,
    ensures
        catalog_of(a) == catalog_of(b),
{
}

/// A numeric field of a matching catalog line failed the seven-bit range
/// check; `line` is the index of the first offending line.
#[derive(Debug, Clone, Copy, PartialEq, Eq)]
pub struct ParseError {
    pub line: usize,
}

/// What one catalog line yields: nothing, a record, or a numeric field out
/// of range.
#[derive(Debug, PartialEq, Eq)]
pub enum LineOutcome {
    Skipped,
    OutOfRange,
    Parsed(Patch),
}

/// Whether every character of `line[start..end)` is a decimal digit.
fn span_all_digits(line: &str, start: usize, end: usize) -> (r: bool)
    requires
        start <= end,
        end as int <= line@.len(),
    ensures
        r == all_digits(line@.subrange(start as int, end as int)),
{
    let mut j: usize = start;
    while j < end
        invariant
            start <= j <= end,
            end as int <= line@.len(),
            forall|k: int| start <= k < j ==> is_digit(#[trigger] line@[k]),
        decreases end - j,
    {
        let c: char = line.get_char(j);
        let u: u32 = c as u32;
        if !(48 <= u && u <= 57) {
            proof {
                assert(line@.subrange(start as int, end as int)[j - start] == line@[j as int]);
            }
            return false;
        }
        j = j + 1;
    }
    proof {
        let sub = line@.subrange(start as int, end as int);
        assert forall|k: int| 0 <= k < sub.len() implies is_digit(#[trigger] sub[k]) by {
            assert(sub[k] == line@[start + k]);
        }
    }
    true
}

/// The value of the digit run `line[start..end)`, refused above 127.
fn span_value(line: &str, start: usize, end: usize) -> (r: Option<u8>)
    requires
        start < end,
        end as int <= line@.len(),
        all_digits(line@.subrange(start as int, end as int)),
    ensures
        r is Some <==> digits_value(line@.subrange(start as int, end as int)) <= 127,
        r matches Some(v) ==> v as int == digits_value(line@.subrange(start as int, end as int)),
{
    let ghost whole = line@.subrange(start as int, end as int);
    let mut j: usize = start;
    let mut val: u16 = 0;
    let mut over: bool = false;
    while j < end
        invariant
            start <= j <= end,
            end as int <= line@.len(),
            whole == line@.subrange(start as int, end as int),
            all_digits(whole),
            !over ==> val <= 127 && val as int == digits_value(line@.subrange(start as int, j as int)),
            over ==> digits_value(line@.subrange(start as int, j as int)) > 127,
        decreases end - j,
    {
        let ghost pre = line@.subrange(start as int, j as int);
        let ghost post = line@.subrange(start as int, j as int + 1);
        proof {
            assert(post.drop_last() =~= pre);
            assert(post.last() == line@[j as int]);
            assert(whole[j - start] == line@[j as int]);
            assert(digits_value(post) == digits_value(pre) * 10 + digit_val(line@[j as int]));
        }
        let c: char = line.get_char(j);
        let u: u32 = c as u32;
        let d: u16 = (u - 48) as u16;
        if over {
        } else {
            let cand: u16 = val * 10 + d;
            if cand > 127 {
                over = true;
            } else {
                val = cand;
            }
        }
        j = j + 1;
    }
    if over {
        None
    } else {
        Some(val as u8)
    }
}

/// Matches one catalog line against the record shape and, where it matches,
/// validates the numeric fields and builds the record.
pub fn parse_line(line: &str) -> (r: LineOutcome)
    ensures
        r is Skipped <==> !line_matches(line@),
        r is OutOfRange <==> line_bad(line@),
        r matches LineOutcome::Parsed(p) ==> line_matches(line@) && line_in_range(line@) && p@ == line_model(
            line@,
        ) && p.wf(),
{
    let n: usize = line.unicode_len();
    let mut tabs: Vec<usize> = Vec::new();
    let mut i: usize = 0;
    while i < n
        invariant
            n == line@.len(),
            i <= n,
            tabs@.len() == tab_indices(line@.take(i as int)).len(),
            forall|k: int|
                0 <= k < tabs@.len() ==> (#[trigger] tabs@[k]) as int == tab_indices(
                    line@.take(i as int),
                )[k] && tabs@[k] < i,
        decreases n - i,
    {
        let ghost pre = line@.take(i as int);
        let ghost post = line@.take(i as int + 1);
        proof {
            assert(post.drop_last() =~= pre);
            assert(post.last() == line@[i as int]);
        }
        let c: char = line.get_char(i);
        if c == '\t' {
            tabs.push(i);
        }
        i = i + 1;
    }
    proof {
        assert(line@.take(n as int) =~= line@);
    }
    if tabs.len() != 4 {
        return LineOutcome::Skipped;
    }
    let t0: usize = tabs[0];
    let t1: usize = tabs[1];
    let t2: usize = tabs[2];
    let t3: usize = tabs[3];
    if !(0 < t0 && t0 + 1 < t1 && t1 + 1 < t2 && t2 + 1 < t3 && t3 + 1 < n) {
        return LineOutcome::Skipped;
    }
    if !span_all_digits(line, 0, t0) {
        return LineOutcome::Skipped;
    }
    if !span_all_digits(line, t0 + 1, t1) {
        return LineOutcome::Skipped;
    }
    if !span_all_digits(line, t1 + 1, t2) {
        return LineOutcome::Skipped;
    }
    assert(line_matches(line@));
    let vpc: Option<u8> = span_value(line, 0, t0);
    let vmsb: Option<u8> = span_value(line, t0 + 1, t1);
    let vlsb: Option<u8> = span_value(line, t1 + 1, t2);
    if vpc.is_none() || vmsb.is_none() || vlsb.is_none() {
        return LineOutcome::OutOfRange;
    }
    let name: String = String::from_str(line.substring_char(t2 + 1, t3));
    let category: String = String::from_str(line.substring_char(t3 + 1, n));
    LineOutcome::Parsed(
        Patch { pc: vpc.unwrap(), msb: vmsb.unwrap(), lsb: vlsb.unwrap(), name, category },
    )
}

/// Loads a patch catalog from the lines of a patch table. Lines that do not
/// match the record shape are skipped; a matching line whose numeric fields
/// leave the seven-bit range fails the whole load, and no partial catalog
/// comes back.
pub fn extract_data_from_file(lines: &Vec<String>) -> (r: Result<Vec<Patch>, ParseError>)
    ensures
        r is Ok <==> (forall|j: int| 0 <= j < lines@.len() ==> !line_bad(#[trigger] lines@[j]@)),
        r matches Ok(ps) ==> ps.deep_view() == catalog_of(lines.deep_view()) && (forall|k: int|
            0 <= k < ps@.len() ==> (#[trigger] ps@[k]).wf()),
        r matches Err(e) ==> e.line < lines@.len() && line_bad(lines@[e.line as int]@) && (forall|
            j: int,
        |
            0 <= j < e.line ==> !line_bad(#[trigger] lines@[j]@)),
{
    let mut out: Vec<Patch> = Vec::new();
    let mut i: usize = 0;
    while i < lines.len()
        invariant
            i <= lines@.len(),
            out.deep_view() == catalog_of(lines.deep_view().take(i as int)),
            forall|k: int| 0 <= k < out@.len() ==> (#[trigger] out@[k]).wf(),
            forall|j: int| 0 <= j < i ==> !line_bad(#[trigger] lines@[j]@),
        decreases lines@.len() - i,
    {
        let ghost dv = lines.deep_view();
        let ghost pre = dv.take(i as int);
        let ghost post = dv.take(i as int + 1);
        proof {
            assert(post.drop_last() =~= pre);
            assert(post.last() == dv[i as int]);
            assert(dv[i as int] == lines@[i as int]@);
        }
        let entry: &String = &lines[i];
        match parse_line(entry.as_str()) {
            LineOutcome::Skipped => {
                proof {
                    assert(catalog_of(post) == catalog_of(pre));
                }
            },
            LineOutcome::OutOfRange => {
                return Err(ParseError { line: i });
            },
            LineOutcome::Parsed(p) => {
                out.push(p);
                proof {
                    assert(out.deep_view() =~= catalog_of(post));
                }
            },
        }
        i = i + 1;
    }
    proof {
        assert(lines.deep_view().take(lines@.len() as int) =~= lines.deep_view());
    }
    Ok(out)
}

} // verus!
