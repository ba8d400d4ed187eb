//! The record of one trashed item: where it came from and when it was
//! deleted, and the text that holds both on disk.

use vstd::prelude::*;

use crate::date::{date_of, DateModel, DeletionDate};
use crate::errors::{Error, TrashInfoError};
use crate::text::{
    chars_of, lemma_scan_lines_add, lemma_scan_lines_concat, lemma_scan_lines_feed, lines_of,
    range_is, scan_lines, split_lines, string_of, views, without_cr,
};

verus! {

/// The first line of every record.
pub const HEADER: &'static str = "[Trash Info]";

/// The key of the line that gives the path that the item had.
pub const PATH_KEY: &'static str = "Path";

/// The key of the line that gives the deletion date.
pub const DATE_KEY: &'static str = "DeletionDate";

/// A letter of a key.
pub open spec fn is_letter(c: char) -> bool {
    ('a' <= c && c <= 'z') || ('A' <= c && c <= 'Z')
}

/// White space, as Unicode defines it.
pub open spec fn is_space(c: char) -> bool {
    ||| ('\u{9}' <= c && c <= '\u{d}')
    ||| c == ' '
    ||| c == '\u{85}'
    ||| c == '\u{a0}'
    ||| c == '\u{1680}'
    ||| ('\u{2000}' <= c && c <= '\u{200a}')
    ||| c == '\u{2028}'
    ||| c == '\u{2029}'
    ||| c == '\u{202f}'
    ||| c == '\u{205f}'
    ||| c == '\u{3000}'
}

/// The first index from `i` on at which `s` has no letter.
pub open spec fn letters_end(s: Seq<char>, i: int) -> int
    decreases s.len() - i,
{
    if 0 <= i < s.len() && is_letter(s[i]) {
        letters_end(s, i + 1)
    } else {
        i
    }
}

/// The first index from `i` on at which `s` has no white space.
pub open spec fn spaces_end(s: Seq<char>, i: int) -> int
    decreases s.len() - i,
{
    if 0 <= i < s.len() && is_space(s[i]) {
        spaces_end(s, i + 1)
    } else {
        i
    }
}

/// The key and the value that start at `i`: letters, then an equals sign
/// with white space around it or none, then the rest of the line.
pub open spec fn pair_at(s: Seq<char>, i: int) -> Option<(Seq<char>, Seq<char>)> {
    let key_end = letters_end(s, i);
    let sign = spaces_end(s, key_end);
    if 0 <= i < key_end && sign < s.len() && s[sign] == '=' {
        Some((s.subrange(i, key_end), s.subrange(spaces_end(s, sign + 1), s.len() as int)))
    } else {
        None
    }
}

/// The first pair of `s` that starts at `from` or later.
pub open spec fn first_pair(s: Seq<char>, from: int) -> Option<(Seq<char>, Seq<char>)>
    decreases s.len() - from,
{
    if from < 0 || from >= s.len() {
        None
    } else if pair_at(s, from) is Some {
        pair_at(s, from)
    } else {
        first_pair(s, from + 1)
    }
}

/// The key and the value of a line: the leftmost pair in it.
pub open spec fn key_value(line: Seq<char>) -> Option<(Seq<char>, Seq<char>)> {
    first_pair(line, 0)
}

/// Where the pair of a line stands: the start and the end of its key, and
/// the start of its value.
struct PairAt {
    key_start: usize,
    key_end: usize,
    value_start: usize,
}

fn is_letter_char(c: char) -> (r: bool)
    ensures
        r == is_letter(c),
{
    ('a' <= c && c <= 'z') || ('A' <= c && c <= 'Z')
}

/// Whether a character is white space.
pub fn is_space_char(c: char) -> (r: bool)
    ensures
        r == is_space(c),
{
    ('\u{9}' <= c && c <= '\u{d}') || c == ' ' || c == '\u{85}' || c == '\u{a0}' || c
        == '\u{1680}' || ('\u{2000}' <= c && c <= '\u{200a}') || c == '\u{2028}' || c
        == '\u{2029}' || c == '\u{202f}' || c == '\u{205f}' || c == '\u{3000}'
}

fn skip_letters(s: &Vec<char>, from: usize) -> (end: usize)
    requires
        from <= s.len(),
    ensures
        end == letters_end(s@, from as int),
        from <= end <= s.len(),
        forall|k: int| from <= k < end ==> letters_end(s@, k) == end,
{
    let mut end: usize = from;
    while end < s.len() && is_letter_char(s[end])
        invariant
            from <= end <= s.len(),
            forall|k: int| from <= k <= end ==> letters_end(s@, k) == letters_end(s@, end as int),
        decreases s.len() - end,
    {
        end += 1;
    }
    end
}

fn skip_spaces(s: &Vec<char>, from: usize) -> (end: usize)
    requires
        from <= s.len(),
    ensures
        end == spaces_end(s@, from as int),
        from <= end <= s.len(),
{
    let mut end: usize = from;
    while end < s.len() && is_space_char(s[end])
        invariant
            from <= end <= s.len(),
            spaces_end(s@, from as int) == spaces_end(s@, end as int),
        decreases s.len() - end,
    {
        end += 1;
    }
    end
}

/// Finds the leftmost pair of a line.
fn find_pair(line: &Vec<char>) -> (r: Option<PairAt>)
    ensures
        match r {
            Some(at) => at.key_start <= at.key_end <= at.value_start <= line.len() && key_value(
                line@,
            ) == Some(
                (
                    line@.subrange(at.key_start as int, at.key_end as int),
                    line@.subrange(at.value_start as int, line.len() as int),
                ),
            ),
            None => key_value(line@) is None,
        },
{
    let mut i: usize = 0;
    while i < line.len()
        invariant
            i <= line.len(),
            key_value(line@) == first_pair(line@, i as int),
        decreases line.len() - i,
    {
        let key_end = skip_letters(line, i);
        if key_end == i {
            i += 1;
        } else {
            let sign = skip_spaces(line, key_end);
            if sign < line.len() && line[sign] == '=' {
                let value_start = skip_spaces(line, sign + 1);
                return Some(PairAt { key_start: i, key_end, value_start });
            }
            proof {
                lemma_no_pair_in_run(line@, i as int, key_end as int, i as int);
            }
            i = key_end;
        }
    }
    None
}

/// Where no pair starts at the first letter of a run of letters, none
/// starts anywhere in the run.
proof fn lemma_no_pair_in_run(s: Seq<char>, start: int, end: int, k: int)
    requires
        0 <= start <= k <= end <= s.len(),
        forall|j: int| start <= j < end ==> letters_end(s, j) == end,
        start < end ==> pair_at(s, start) is None,
    ensures
        first_pair(s, k) == first_pair(s, end),
    decreases end - k,
{
    if k < end {
        lemma_no_pair_in_run(s, start, end, k + 1);
    }
}

/// The key and the value of a line, if it has them. The key is the first
/// run of letters that an equals sign follows, white space between them or
/// none; the value is what follows the sign and the white space after it,
/// up to the end of the line.
pub fn parse_key_value(line: &str) -> (r: Option<(String, String)>)
    ensures
        match r {
            Some((key, value)) => key_value(line@) == Some((key@, value@)),
            None => key_value(line@) is None,
        },
{
    let chars = chars_of(line);
    match find_pair(&chars) {
        Some(at) => Some(
            (
                string_of(&chars, at.key_start, at.key_end),
                string_of(&chars, at.value_start, chars.len()),
            ),
        ),
        None => None,
    }
}


/// The value of a line if its key is `key`.
pub open spec fn value_for(line: Seq<char>, key: Seq<char>) -> Option<Seq<char>> {
    match key_value(line) {
        Some((k, v)) => if k == key {
            Some(v)
        } else {
            None
        },
        None => None,
    }
}

/// The value of the last line with the key `key`. The first line is the
/// header and gives no value.
pub open spec fn last_value(lines: Seq<Seq<char>>, key: Seq<char>) -> Option<Seq<char>>
    decreases lines.len(),
{
    if lines.len() <= 1 {
        None
    } else if value_for(lines.last(), key) is Some {
        value_for(lines.last(), key)
    } else {
        last_value(lines.drop_last(), key)
    }
}

/// A line that gives a deletion date which is no date.
pub open spec fn bad_date_line(line: Seq<char>) -> bool {
    value_for(line, DATE_KEY@) matches Some(value) && date_of(value) is None
}

/// Some line after the header gives a deletion date which is no date.
pub open spec fn has_bad_date(lines: Seq<Seq<char>>) -> bool {
    exists|i: int| 1 <= i < lines.len() && #[trigger] bad_date_line(lines[i])
}

/// Why a text is no record.
pub enum RecordFault {
    /// A part of the record is missing.
    Malformed(TrashInfoError),
    /// A line gives a deletion date which is no date.
    BadDate,
}

/// What the lines of a text say as a record: the path that the item had
/// and the deletion date. The first line has to be the header. Of the lines after
/// it, the last one with the key `Path` gives the path, the last one with
/// the key `DeletionDate` the date; all other lines say nothing. A deletion
/// date which is no date spoils the record wherever it stands.
pub open spec fn record_of_lines(lines: Seq<Seq<char>>) -> Result<
    (Seq<char>, DateModel),
    RecordFault,
> {
    if lines.len() == 0 || lines[0] != HEADER@ {
        Err(RecordFault::Malformed(TrashInfoError::MissingHeader))
    } else if has_bad_date(lines) {
        Err(RecordFault::BadDate)
    } else {
        match last_value(lines, PATH_KEY@) {
            None => Err(RecordFault::Malformed(TrashInfoError::MissingPath)),
            Some(path) => match last_value(lines, DATE_KEY@) {
                None => Err(RecordFault::Malformed(TrashInfoError::MissingDate)),
                Some(date) => Ok((path, DateModel { seconds: date_of(date).unwrap(), text: date })),
            },
        }
    }
}

/// What a text says as a record.
pub open spec fn parsed_record(text: Seq<char>) -> Result<(Seq<char>, DateModel), RecordFault> {
    record_of_lines(lines_of(text))
}

/// The text of a record with the given path and date.
pub open spec fn written(path: Seq<char>, date: Seq<char>) -> Seq<char> {
    HEADER@ + seq!['\n'] + PATH_KEY@ + seq!['='] + path + seq!['\n'] + DATE_KEY@ + seq!['=']
        + date + seq!['\n']
}

/// The record of one trashed item.
#[derive(Debug)]
pub struct TrashInfo {
    /// Where the item was before it was deleted.
    pub path: String,
    /// When the item was deleted.
    pub deletion_date: DeletionDate,
    /// Where the item is now.
    pub deleted_path: String,
    /// Where the record is.
    pub info_path: String,
}

impl TrashInfo {
    /// Reads the record that `text` holds. `info_path` is where the text
    /// was found and `deleted_path` where the item is now; neither is
    /// looked at.
    pub fn from_files(info_path: &str, deleted_path: &str, text: &str) -> (r: Result<
        TrashInfo,
        Error,
    >)
        ensures
            match r {
                Ok(info) => parsed_record(text@) == Ok::<_, RecordFault>(
                    (info.path@, info.deletion_date@),
                ) && info.deletion_date.wf() && info.info_path@ == info_path@
                    && info.deleted_path@ == deleted_path@,
                Err(Error::BadTrashInfo(e)) => parsed_record(text@) == Err::<
                    (Seq<char>, DateModel),
                    _,
                >(RecordFault::Malformed(e)),
                Err(Error::ParseDate(_)) => parsed_record(text@) == Err::<
                    (Seq<char>, DateModel),
                    _,
                >(RecordFault::BadDate),
                Err(_) => false,
            },
    {
        let chars = chars_of(text);
        let lines = split_lines(&chars);
        let ghost ls = lines_of(text@);
        if lines.len() == 0 {
            return Err(Error::BadTrashInfo(TrashInfoError::MissingHeader));
        }
        let header = chars_of(HEADER);
        assert(views(lines@)[0] == lines@[0]@);
        if !range_is(&lines[0], 0, lines[0].len(), &header) {
            assert(lines@[0]@.subrange(0, lines@[0]@.len() as int) == lines@[0]@);
            return Err(Error::BadTrashInfo(TrashInfoError::MissingHeader));
        }
        assert(lines@[0]@.subrange(0, lines@[0]@.len() as int) == lines@[0]@);
        let path_key = chars_of(PATH_KEY);
        let date_key = chars_of(DATE_KEY);
        let mut path: Option<String> = None;
        let mut date: Option<DeletionDate> = None;
        let mut i: usize = 1;
        while i < lines.len()
            invariant
                1 <= i <= lines.len(),
                ls == views(lines@),
                ls == lines_of(text@),
                ls[0] == HEADER@,
                path_key@ == PATH_KEY@,
                date_key@ == DATE_KEY@,
                forall|j: int| 1 <= j < i ==> !#[trigger] bad_date_line(ls[j]),
                match path {
                    Some(p) => last_value(ls.take(i as int), PATH_KEY@) == Some(p@),
                    None => last_value(ls.take(i as int), PATH_KEY@) is None,
                },
                match date {
                    Some(d) => last_value(ls.take(i as int), DATE_KEY@) == Some(d@.text) && d.wf(),
                    None => last_value(ls.take(i as int), DATE_KEY@) is None,
                },
            decreases lines.len() - i,
        {
            let line = &lines[i];
            proof {
                assert(ls[i as int] == line@);
                assert(ls.take(i + 1).drop_last() == ls.take(i as int));
                assert(ls.take(i + 1).last() == line@);
                reveal_strlit("Path");
                reveal_strlit("DeletionDate");
                assert(PATH_KEY@.len() != DATE_KEY@.len());
            }
            match find_pair(line) {
                Some(at) => {
                    if range_is(line, at.key_start, at.key_end, &path_key) {
                        path = Some(string_of(line, at.value_start, line.len()));
                    } else if range_is(line, at.key_start, at.key_end, &date_key) {
                        let value = string_of(line, at.value_start, line.len());
                        match DeletionDate::parse(value.as_str()) {
                            Ok(d) => {
                                date = Some(d);
                            },
                            Err(e) => {
                                assert(bad_date_line(ls[i as int]));
                                return Err(Error::ParseDate(e));
                            },
                        }
                    }
                },
                None => {},
            }
            i += 1;
        }
        assert(ls.take(i as int) == ls);
        match path {
            None => Err(Error::BadTrashInfo(TrashInfoError::MissingPath)),
            Some(path) => match date {
                None => Err(Error::BadTrashInfo(TrashInfoError::MissingDate)),
                Some(deletion_date) => Ok(
                    TrashInfo {
                        path,
                        deletion_date,
                        deleted_path: deleted_path.to_owned(),
                        info_path: info_path.to_owned(),
                    },
                ),
            },
        }
    }

    /// Reads the record that `text` holds, for a record that is its own
    /// payload: `path` is where the text was found, and where the item is
    /// taken to be.
    pub fn from_file(path: &str, text: &str) -> (r: Result<TrashInfo, Error>)
        ensures
            match r {
                Ok(info) => parsed_record(text@) == Ok::<_, RecordFault>(
                    (info.path@, info.deletion_date@),
                ) && info.deletion_date.wf() && info.info_path@ == path@ && info.deleted_path@
                    == path@,
                Err(Error::BadTrashInfo(e)) => parsed_record(text@) == Err::<
                    (Seq<char>, DateModel),
                    _,
                >(RecordFault::Malformed(e)),
                Err(Error::ParseDate(_)) => parsed_record(text@) == Err::<
                    (Seq<char>, DateModel),
                    _,
                >(RecordFault::BadDate),
                Err(_) => false,
            },
    {
        TrashInfo::from_files(path, path, text)
    }

    /// The text that holds this record on disk: the header, the path and
    /// the date, each on a line of its own.
    pub fn write(&self) -> (text: String)
        ensures
            text@ == written(self.path@, self.deletion_date@.text),
    {
        proof {
            reveal_strlit("\n");
            reveal_strlit("=");
        }
        let mut text = String::from_str(HEADER);
        text.append("\n");
        text.append(PATH_KEY);
        text.append("=");
        text.append(self.path.as_str());
        text.append("\n");
        text.append(DATE_KEY);
        text.append("=");
        text.append(self.deletion_date.text());
        text.append("\n");
        assert("\n"@ == seq!['\n']);
        assert("="@ == seq!['=']);
        text
    }
}


/// A value that a line of a record can hold and give back: it has no line
/// feed, does not end in a carriage return and does not begin with white
/// space.
pub open spec fn plain_value(value: Seq<char>) -> bool {
    &&& forall|i: int| 0 <= i < value.len() ==> value[i] != '\n'
    &&& value.len() > 0 ==> value.last() != '\r' && !is_space(value[0])
}

impl TrashInfo {
    /// The record can be written and read back: its path and the text of
    /// its date are plain values, and the text of its date stands for its
    /// date.
    pub open spec fn valid(&self) -> bool {
        &&& plain_value(self.path@)
        &&& plain_value(self.deletion_date@.text)
        &&& self.deletion_date.wf()
    }
}

/// A run of letters ends where the first character stands that is no letter.
proof fn lemma_letters_end(s: Seq<char>, i: int, end: int)
    requires
        0 <= i <= end <= s.len(),
        forall|k: int| i <= k < end ==> is_letter(s[k]),
        end < s.len() ==> !is_letter(s[end]),
    ensures
        letters_end(s, i) == end,
    decreases end - i,
{
    if i < end {
        lemma_letters_end(s, i + 1, end);
    }
}

/// A key of letters, an equals sign and a plain value make a line with
/// that key and that value.
proof fn lemma_key_value_of_line(key: Seq<char>, value: Seq<char>)
    requires
        key.len() > 0,
        forall|k: int| 0 <= k < key.len() ==> is_letter(key[k]),
        value.len() > 0 ==> !is_space(value[0]),
    ensures
        key_value(key + seq!['='] + value) == Some((key, value)),
{
    let s = key + seq!['='] + value;
    let n = key.len() as int;
    assert(s[n] == '=');
    lemma_letters_end(s, 0, n);
    assert(spaces_end(s, n) == n);
    assert(n + 1 < s.len() ==> s[n + 1] == value[0]);
    assert(spaces_end(s, n + 1) == n + 1);
    assert(s.subrange(0, n) == key);
    assert(s.subrange(n + 1, s.len() as int) == value);
}

/// The keys are words of letters, and differ.
proof fn lemma_keys()
    ensures
        PATH_KEY@.len() == 4,
        DATE_KEY@.len() == 12,
        forall|k: int| 0 <= k < PATH_KEY@.len() ==> is_letter(PATH_KEY@[k]),
        forall|k: int| 0 <= k < DATE_KEY@.len() ==> is_letter(DATE_KEY@[k]),
        HEADER@.len() == 12,
        forall|k: int| 0 <= k < HEADER@.len() ==> HEADER@[k] != '\n' && HEADER@[k] != '\r',
{
    reveal_strlit("Path");
    reveal_strlit("DeletionDate");
    reveal_strlit("[Trash Info]");
}

/// The lines of a written record: the header, the path and the date.
proof fn lemma_lines_of_written(path: Seq<char>, date: Seq<char>)
    requires
        plain_value(path),
        plain_value(date),
    ensures
        lines_of(written(path, date)) == seq![
            HEADER@,
            PATH_KEY@ + seq!['='] + path,
            DATE_KEY@ + seq!['='] + date,
        ],
{
    lemma_keys();
    let first = PATH_KEY@ + seq!['='] + path;
    let second = DATE_KEY@ + seq!['='] + date;
    let none = Seq::<char>::empty();
    let s1 = none + HEADER@;
    lemma_scan_lines_add(none, HEADER@);
    assert(scan_lines(none) == (Seq::<Seq<char>>::empty(), none));
    assert(none + HEADER@ == HEADER@);
    lemma_scan_lines_feed(s1);
    let s2 = s1.push('\n');
    assert(scan_lines(s2) == (seq![HEADER@], none));
    lemma_scan_lines_add(s2, first);
    let s3 = s2 + first;
    assert(none + first == first);
    lemma_scan_lines_feed(s3);
    let s4 = s3.push('\n');
    assert(first.last() != '\r');
    assert(scan_lines(s4) == (seq![HEADER@, first], none));
    lemma_scan_lines_add(s4, second);
    let s5 = s4 + second;
    assert(none + second == second);
    lemma_scan_lines_feed(s5);
    let s6 = s5.push('\n');
    assert(second.last() != '\r');
    assert(scan_lines(s6) == (seq![HEADER@, first, second], none));
    assert(s6 == written(path, date));
}

/// Reading a written record gives back its path and its date: for every
/// valid record, the text that `write` makes of it is read by `from_files`
/// as a record with the same path and the same deletion date.
pub proof fn lemma_read_written(info: TrashInfo)
    requires
        info.valid(),
    ensures
        parsed_record(written(info.path@, info.deletion_date@.text)) == Ok::<_, RecordFault>(
            (info.path@, info.deletion_date@),
        ),
{
    let path = info.path@;
    let date = info.deletion_date@.text;
    let first = PATH_KEY@ + seq!['='] + path;
    let second = DATE_KEY@ + seq!['='] + date;
    let lines = seq![HEADER@, first, second];
    lemma_keys();
    lemma_lines_of_written(path, date);
    lemma_key_value_of_line(PATH_KEY@, path);
    lemma_key_value_of_line(DATE_KEY@, date);
    assert(value_for(first, PATH_KEY@) == Some(path));
    assert(value_for(first, DATE_KEY@) is None);
    assert(value_for(second, DATE_KEY@) == Some(date));
    assert(value_for(second, PATH_KEY@) is None);
    assert(lines.drop_last() == seq![HEADER@, first]);
    assert(lines.drop_last().last() == first);
    assert(last_value(lines.drop_last(), PATH_KEY@) == Some(path));
    assert(last_value(lines, PATH_KEY@) == Some(path));
    assert(last_value(lines, DATE_KEY@) == Some(date));
    assert(!has_bad_date(lines)) by {
        assert(!bad_date_line(lines[1]));
        assert(!bad_date_line(lines[2]));
    }
}

/// A text whose first line is not the header is no record, whatever else
/// it holds: the header is what is found missing.
pub proof fn lemma_missing_header(text: Seq<char>)
    requires
        lines_of(text).len() == 0 || lines_of(text)[0] != HEADER@,
    ensures
        parsed_record(text) == Err::<(Seq<char>, DateModel), _>(
            RecordFault::Malformed(TrashInfoError::MissingHeader),
        ),
{
}

/// Where no line after the header has the key `key`, no value is found for it.
proof fn lemma_no_value(lines: Seq<Seq<char>>, key: Seq<char>)
    requires
        forall|i: int| 1 <= i < lines.len() ==> value_for(#[trigger] lines[i], key) is None,
    ensures
        last_value(lines, key) is None,
    decreases lines.len(),
{
    if lines.len() > 1 {
        assert(lines.last() == lines[lines.len() - 1]);
        lemma_no_value(lines.drop_last(), key);
    }
}

/// Where a line after the header has the key `key`, a value is found for it.
proof fn lemma_some_value(lines: Seq<Seq<char>>, key: Seq<char>, at: int)
    requires
        1 <= at < lines.len(),
        value_for(lines[at], key) is Some,
    ensures
        last_value(lines, key) is Some,
    decreases lines.len(),
{
    if at < lines.len() - 1 {
        lemma_some_value(lines.drop_last(), key, at);
    }
}

/// A text with the header and with dates that are dates, but without a line
/// for the path, is no record: the path is what is found missing.
pub proof fn lemma_missing_path(text: Seq<char>)
    requires
        lines_of(text).len() > 0,
        lines_of(text)[0] == HEADER@,
        !has_bad_date(lines_of(text)),
        forall|i: int|
            1 <= i < lines_of(text).len() ==> value_for(#[trigger] lines_of(text)[i], PATH_KEY@)
                is None,
    ensures
        parsed_record(text) == Err::<(Seq<char>, DateModel), _>(
            RecordFault::Malformed(TrashInfoError::MissingPath),
        ),
{
    lemma_no_value(lines_of(text), PATH_KEY@);
}

/// A text with the header and a line for the path, but without a line for
/// the date, is no record: the date is what is found missing.
pub proof fn lemma_missing_date(text: Seq<char>, at: int)
    requires
        lines_of(text).len() > 0,
        lines_of(text)[0] == HEADER@,
        1 <= at < lines_of(text).len(),
        value_for(lines_of(text)[at], PATH_KEY@) is Some,
        forall|i: int|
            1 <= i < lines_of(text).len() ==> value_for(#[trigger] lines_of(text)[i], DATE_KEY@)
                is None,
    ensures
        parsed_record(text) == Err::<(Seq<char>, DateModel), _>(
            RecordFault::Malformed(TrashInfoError::MissingDate),
        ),
{
    let lines = lines_of(text);
    lemma_no_value(lines, DATE_KEY@);
    lemma_some_value(lines, PATH_KEY@, at);
    assert(!has_bad_date(lines)) by {
        assert forall|i: int| 1 <= i < lines.len() implies !#[trigger] bad_date_line(lines[i]) by {
            assert(value_for(lines[i], DATE_KEY@) is None);
        }
    }
}

/// A line that gives neither the path nor the date changes no value.
proof fn lemma_insert_keeps_value(lines: Seq<Seq<char>>, at: int, line: Seq<char>, key: Seq<char>)
    requires
        1 <= at <= lines.len(),
        value_for(line, key) is None,
    ensures
        last_value(lines.insert(at, line), key) == last_value(lines, key),
    decreases lines.len(),
{
    let longer = lines.insert(at, line);
    if at == lines.len() {
        assert(longer.last() == line);
        assert(longer.drop_last() == lines);
    } else {
        assert(longer.last() == lines.last());
        assert(longer.drop_last() == lines.drop_last().insert(at, line));
        lemma_insert_keeps_value(lines.drop_last(), at, line, key);
    }
}

/// A line after the header with another key than `Path` and `DeletionDate`,
/// or with none, never changes what the lines say: with it or without it
/// the record is the same, and so is the fault of a text that is no record.
pub proof fn lemma_unknown_line_ignored(lines: Seq<Seq<char>>, at: int, line: Seq<char>)
    requires
        1 <= at <= lines.len(),
        value_for(line, PATH_KEY@) is None,
        value_for(line, DATE_KEY@) is None,
    ensures
        record_of_lines(lines.insert(at, line)) == record_of_lines(lines),
{
    let longer = lines.insert(at, line);
    lemma_insert_keeps_value(lines, at, line, PATH_KEY@);
    lemma_insert_keeps_value(lines, at, line, DATE_KEY@);
    assert(longer[0] == lines[0]);
    if has_bad_date(lines) {
        let i = choose|i: int| 1 <= i < lines.len() && #[trigger] bad_date_line(lines[i]);
        if i < at {
            assert(bad_date_line(longer[i]));
        } else {
            assert(longer[i + 1] == lines[i]);
            assert(bad_date_line(longer[i + 1]));
        }
    }
    if has_bad_date(longer) {
        let i = choose|i: int| 1 <= i < longer.len() && #[trigger] bad_date_line(longer[i]);
        if i < at {
            assert(bad_date_line(lines[i]));
        } else {
            assert(i != at);
            assert(longer[i] == lines[i - 1]);
            assert(bad_date_line(lines[i - 1]));
        }
    }
}


/// A line of a text after its first line with another key than `Path` and
/// `DeletionDate`, or with none, never changes what the text says: with it
/// or without it the record is the same, and so is the fault of a text
/// that is no record.
pub proof fn lemma_unknown_line_in_text(before: Seq<char>, line: Seq<char>, after: Seq<char>)
    requires
        before.len() > 0,
        before.last() == '\n',
        forall|i: int| 0 <= i < line.len() ==> line[i] != '\n',
        value_for(without_cr(line), PATH_KEY@) is None,
        value_for(without_cr(line), DATE_KEY@) is None,
    ensures
        parsed_record(before + line + seq!['\n'] + after) == parsed_record(before + after),
{
    let none = Seq::<char>::empty();
    let fed = line.push('\n');
    assert(before.drop_last().push('\n') == before);
    lemma_scan_lines_feed(before.drop_last());
    assert(scan_lines(before).1 == none);
    assert(scan_lines(before).0.len() >= 1);
    lemma_scan_lines_add(none, line);
    assert(none + line == line);
    lemma_scan_lines_feed(line);
    assert(scan_lines(fed) == (seq![without_cr(line)], none));
    lemma_scan_lines_concat(before, fed);
    lemma_scan_lines_concat(before + fed, after);
    lemma_scan_lines_concat(before, after);
    assert(before + line + seq!['\n'] + after == before + fed + after);
    let shorter = lines_of(before + after);
    let longer = lines_of(before + fed + after);
    let at = scan_lines(before).0.len() as int;
    assert(longer == shorter.insert(at, without_cr(line)));
    lemma_unknown_line_ignored(shorter, at, without_cr(line));
}

impl TrashInfo {
    /// Whether the record can be written and read back.
    pub fn is_valid(&self) -> (r: bool)
        ensures
            r == self.valid(),
    {
        let same_date = match DeletionDate::parse(self.deletion_date.text()) {
            Ok(date) => date.timestamp() == self.deletion_date.timestamp(),
            Err(_) => false,
        };
        same_date && is_plain_value(self.path.as_str()) && is_plain_value(
            self.deletion_date.text(),
        )
    }
}

/// Whether a line of a record can hold a value and give it back.
pub fn is_plain_value(value: &str) -> (r: bool)
    ensures
        r == plain_value(value@),
{
    let chars = chars_of(value);
    let n = chars.len();
    if n > 0 && (chars[n - 1] == '\r' || is_space_char(chars[0])) {
        return false;
    }
    let mut i: usize = 0;
    while i < n
        invariant
            i <= n,
            n == chars.len(),
            chars@ == value@,
            forall|k: int| 0 <= k < i ==> chars@[k] != '\n',
        decreases n - i,
    {
        if chars[i] == '\n' {
            return false;
        }
        i += 1;
    }
    true
}

} // verus!
