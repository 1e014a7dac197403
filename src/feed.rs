//! The multiplexer's status feed: one session per line, six fields separated
//! by tabs (name, attached clients, last activity, creation time, working
//! directory, windows).

use vstd::prelude::*;
use chrono::TimeZone;
use crate::error::{TmuxError, TmuxErrorView};
use crate::session::{Session, SessionStatus, SessionView, session_views, status_of_count};
use crate::text::{
    decimal, decimal_text, is_blank, is_white, is_blank_text, parse_i64, parse_u32, signed_decimal,
    signed_decimal_text, text_i64, text_u32,
};

verus! {

/// Whether `secs` seconds after the Unix epoch is one instant that chrono's
/// UTC calendar can represent.
pub uninterp spec fn utc_second_exists(secs: int) -> bool;

/// Relies on chrono's `Utc.timestamp_opt(secs, 0).single()`: `Some` exactly
/// for the seconds that map to one UTC date and time in chrono's range.
#[verifier::external_body]
fn utc_second_is_valid(secs: i64) -> (r: bool)
    ensures
        r == utc_second_exists(secs as int),
{
    chrono::Utc.timestamp_opt(secs, 0).single().is_some()
}

/// `l` without one trailing carriage return.
pub open spec fn strip_cr(l: Seq<char>) -> Seq<char> {
    if l.len() > 0 && l.last() == '\r' {
        l.drop_last()
    } else {
        l
    }
}

/// The lines of `s` from the line that begins at `start`, scanning on from
/// `i`: lines end at `\n`, a `\r` right before it is dropped, and a final
/// newline opens no further line.
pub open spec fn lines_from(s: Seq<char>, start: int, i: int) -> Seq<Seq<char>>
    decreases s.len() - i,
{
    if i >= s.len() {
        if start < s.len() {
            seq![s.subrange(start, s.len() as int)]
        } else {
            seq![]
        }
    } else if s[i] == '\n' {
        seq![strip_cr(s.subrange(start, i))] + lines_from(s, i + 1, i + 1)
    } else {
        lines_from(s, start, i + 1)
    }
}

/// The lines of `s`.
pub open spec fn lines(s: Seq<char>) -> Seq<Seq<char>> {
    lines_from(s, 0, 0)
}

/// The tab-separated fields of `l` from the field that begins at `start`,
/// scanning on from `i`.
pub open spec fn fields_from(l: Seq<char>, start: int, i: int) -> Seq<Seq<char>>
    decreases l.len() - i,
{
    if i >= l.len() {
        seq![l.subrange(start, l.len() as int)]
    } else if l[i] == '\t' {
        seq![l.subrange(start, i)] + fields_from(l, i + 1, i + 1)
    } else {
        fields_from(l, start, i + 1)
    }
}

/// The tab-separated fields of `l`: one more than it holds tabs.
pub open spec fn fields(l: Seq<char>) -> Seq<Seq<char>> {
    fields_from(l, 0, 0)
}

/// The session built from fields already read as numbers, given whether the
/// two instants exist: the activity instant is examined first, then the
/// creation instant, then the window count.
pub open spec fn record_given(
    name: Seq<char>,
    count: u32,
    activity: i64,
    created: i64,
    dir: Seq<char>,
    windows: Seq<char>,
    activity_ok: bool,
    created_ok: bool,
) -> Result<SessionView, Seq<char>> {
    if !activity_ok {
        Err("Invalid activity epoch: "@ + signed_decimal(activity as int))
    } else if !created_ok {
        Err("Invalid created epoch: "@ + signed_decimal(created as int))
    } else if text_u32(windows) is None {
        Err("Invalid window count: "@ + windows)
    } else {
        Ok(
            SessionView {
                name,
                status: status_of_count(count as nat),
                working_directory: dir,
                last_activity: activity as int,
                created_at: created as int,
                window_count: text_u32(windows)->0 as nat,
            },
        )
    }
}

/// The session that one non-blank line describes, or the message of what is
/// wrong with it. Fields are examined in this order: field count, attached
/// count, activity, creation time, the two instants, window count.
pub open spec fn line_record(l: Seq<char>) -> Result<SessionView, Seq<char>> {
    let f = fields(l);
    if f.len() < 6 {
        Err("Expected 6 fields, got "@ + decimal(f.len()) + ": "@ + l)
    } else if text_u32(f[1]) is None {
        Err("Invalid attached count: "@ + f[1])
    } else if text_i64(f[2]) is None {
        Err("Invalid activity timestamp: "@ + f[2])
    } else if text_i64(f[3]) is None {
        Err("Invalid created timestamp: "@ + f[3])
    } else {
        let activity = text_i64(f[2])->0;
        let created = text_i64(f[3])->0;
        record_given(
            f[0],
            text_u32(f[1])->0,
            activity,
            created,
            f[4],
            f[5],
            utc_second_exists(activity as int),
            utc_second_exists(created as int),
        )
    }
}

/// `acc` put in front of the sessions of `r`; an error stays as it is.
pub open spec fn prepend(acc: Seq<SessionView>, r: Result<Seq<SessionView>, Seq<char>>) -> Result<
    Seq<SessionView>,
    Seq<char>,
> {
    match r {
        Ok(rs) => Ok(acc + rs),
        Err(m) => Err(m),
    }
}

/// The sessions of a sequence of lines: blank lines are skipped, and the
/// first line in error fails the whole.
pub open spec fn records(ls: Seq<Seq<char>>) -> Result<Seq<SessionView>, Seq<char>>
    decreases ls.len(),
{
    if ls.len() == 0 {
        Ok(seq![])
    } else if is_blank(ls[0]) {
        records(ls.drop_first())
    } else {
        match line_record(ls[0]) {
            Err(m) => Err(m),
            Ok(v) => prepend(seq![v], records(ls.drop_first())),
        }
    }
}

/// The sessions of a whole status feed, or the message of its first error.
pub open spec fn parse_feed(s: Seq<char>) -> Result<Seq<SessionView>, Seq<char>> {
    records(lines(s))
}

/// Whether `r` is the outcome `expected` describes, a message standing for
/// a parse error.
pub open spec fn feed_outcome(
    r: Result<Vec<Session>, TmuxError>,
    expected: Result<Seq<SessionView>, Seq<char>>,
) -> bool {
    match expected {
        Ok(rs) => r is Ok && session_views(r->Ok_0@) == rs,
        Err(m) => r is Err && r->Err_0@ == TmuxErrorView::ParseError(m),
    }
}

/// Splits `l` at each tab.
fn split_tabs(l: &str) -> (r: Vec<&str>)
    ensures
        r@.map_values(|x: &str| x@) == fields(l@),
{
    let n = l.unicode_len();
    let mut out: Vec<&str> = Vec::new();
    let mut start: usize = 0;
    let mut i: usize = 0;
    while i < n
        invariant
            n == l@.len(),
            start <= i <= n,
            fields(l@) == out@.map_values(|x: &str| x@) + fields_from(l@, start as int, i as int),
        decreases n - i,
    {
        if l.get_char(i) == '\t' {
            let f = l.substring_char(start, i);
            let ghost before = out@.map_values(|x: &str| x@);
            out.push(f);
            assert(out@.map_values(|x: &str| x@) =~= before.push(f@));
            assert(fields(l@) =~= out@.map_values(|x: &str| x@) + fields_from(
                l@,
                i + 1,
                i + 1,
            ));
            start = i + 1;
        }
        i += 1;
    }
    let f = l.substring_char(start, n);
    let ghost before = out@.map_values(|x: &str| x@);
    out.push(f);
    assert(out@.map_values(|x: &str| x@) =~= before.push(f@));
    assert(fields(l@) =~= out@.map_values(|x: &str| x@));
    out
}

/// `prefix` followed by `detail`.
fn message(prefix: &str, detail: &str) -> (r: String)
    ensures
        r@ == prefix@ + detail@,
{
    let mut m = String::from_str(prefix);
    m.append(detail);
    m
}

/// The session that a non-blank line describes.
fn parse_line(l: &str) -> (r: Result<Session, String>)
    ensures
        match line_record(l@) {
            Ok(v) => r is Ok && r->Ok_0@ == v,
            Err(m) => r is Err && r->Err_0@ == m,
        },
{
    let f = split_tabs(l);
    let ghost fs = fields(l@);
    assert(f@.len() == fs.len());
    if f.len() < 6 {
        let mut m = message("Expected 6 fields, got ", decimal_text(f.len() as u64).as_str());
        m.append(": ");
        m.append(l);
        return Err(m);
    }
    assert(f@[1]@ == fs[1] && f@[2]@ == fs[2] && f@[3]@ == fs[3]);
    assert(f@[0]@ == fs[0] && f@[4]@ == fs[4] && f@[5]@ == fs[5]);
    let count = match parse_u32(f[1]) {
        Some(c) => c,
        None => return Err(message("Invalid attached count: ", f[1])),
    };
    let activity = match parse_i64(f[2]) {
        Some(t) => t,
        None => return Err(message("Invalid activity timestamp: ", f[2])),
    };
    let created = match parse_i64(f[3]) {
        Some(t) => t,
        None => return Err(message("Invalid created timestamp: ", f[3])),
    };
    let activity_ok = utc_second_is_valid(activity);
    let created_ok = utc_second_is_valid(created);
    session_from_fields(f[0], count, activity, created, f[4], f[5], activity_ok, created_ok)
}

/// Builds a session from its fields once the attached count and the two
/// timestamps are read, given whether each timestamp is an instant that
/// exists. Fails with the message for the first instant that does not, or
/// for a window count that is not a `u32`.
pub fn session_from_fields(
    name: &str,
    count: u32,
    activity: i64,
    created: i64,
    dir: &str,
    windows: &str,
    activity_ok: bool,
    created_ok: bool,
) -> (r: Result<Session, String>)
    ensures
        match record_given(
            name@,
            count,
            activity,
            created,
            dir@,
            windows@,
            activity_ok,
            created_ok,
        ) {
            Ok(v) => r is Ok && r->Ok_0@ == v,
            Err(m) => r is Err && r->Err_0@ == m,
        },
{
    if !activity_ok {
        return Err(message("Invalid activity epoch: ", signed_decimal_text(activity).as_str()));
    }
    if !created_ok {
        return Err(message("Invalid created epoch: ", signed_decimal_text(created).as_str()));
    }
    let window_count = match parse_u32(windows) {
        Some(w) => w,
        None => return Err(message("Invalid window count: ", windows)),
    };
    Ok(
        Session {
            name: String::from_str(name),
            status: SessionStatus::from_attached_count(count),
            working_directory: String::from_str(dir),
            last_activity: activity,
            created_at: created,
            window_count,
        },
    )
}

/// Takes one line into `acc`: a blank line adds nothing, another adds its
/// session or fails with the line's message.
fn take_line(l: &str, acc: &mut Vec<Session>) -> (r: Result<(), String>)
    ensures
        prepend(session_views(old(acc)@), records(seq![l@])) == (match r {
            Ok(_) => Ok(session_views(final(acc)@)),
            Err(m) => Err(m@),
        }),
{
    proof {
        lemma_records_cons(l@, seq![]);
    }
    if is_blank_text(l) {
        assert(session_views(old(acc)@) + seq![] =~= session_views(old(acc)@));
        return Ok(());
    }
    match parse_line(l) {
        Ok(s) => {
            let ghost before = session_views(acc@);
            acc.push(s);
            assert(session_views(acc@) =~= before + seq![s@] + seq![]);
            assert(seq![s@] + Seq::<SessionView>::empty() =~= seq![s@]);
            assert(before + seq![s@] + seq![] =~= before + (seq![s@] + Seq::<SessionView>::empty()));
            Ok(())
        },
        Err(m) => Err(m),
    }
}

proof fn lemma_records_cons(l: Seq<char>, rest: Seq<Seq<char>>)
    ensures
        records(seq![l] + rest) == (if is_blank(l) {
            records(rest)
        } else {
            match line_record(l) {
                Err(m) => Err(m),
                Ok(v) => prepend(seq![v], records(rest)),
            }
        }),
        records(seq![l]) == (if is_blank(l) {
            Ok(seq![])
        } else {
            match line_record(l) {
                Err(m) => Err(m),
                Ok(v) => Ok(seq![v]),
            }
        }),
{
    assert((seq![l] + rest).drop_first() =~= rest);
    assert((seq![l] + rest)[0] == l);
    assert(seq![l].drop_first() =~= Seq::<Seq<char>>::empty());
    reveal_with_fuel(records, 2);
    match line_record(l) {
        Ok(v) => {
            assert(seq![v] + Seq::<SessionView>::empty() =~= seq![v]);
        },
        Err(_) => {},
    }
}

proof fn lemma_prepend_assoc(
    a: Seq<SessionView>,
    b: Seq<SessionView>,
    r: Result<Seq<SessionView>, Seq<char>>,
)
    ensures
        prepend(a, prepend(b, r)) == prepend(a + b, r),
{
    match r {
        Ok(rs) => {
            assert(a + (b + rs) =~= a + b + rs);
        },
        Err(_) => {},
    }
}

/// Parses a whole status feed into sessions, in the order of its lines.
///
/// Blank lines are skipped. A line with fewer than six fields, or with a
/// field that is not a number where one is due, fails the whole parse.
pub fn parse_sessions(output: &str) -> (r: Result<Vec<Session>, TmuxError>)
    ensures
        feed_outcome(r, parse_feed(output@)),
{
    let n = output.unicode_len();
    let ghost s = output@;
    let mut acc: Vec<Session> = Vec::new();
    let mut start: usize = 0;
    let mut i: usize = 0;
    assert(session_views(acc@) =~= Seq::<SessionView>::empty());
    assert(prepend(seq![], records(lines(s))) == records(lines(s))) by {
        lemma_prepend_assoc(seq![], seq![], records(lines(s)));
        match records(lines(s)) {
            Ok(rs) => {
                assert(Seq::<SessionView>::empty() + rs =~= rs);
            },
            Err(_) => {},
        }
    }
    while i < n
        invariant
            n == s.len(),
            s == output@,
            start <= i <= n,
            parse_feed(s) == prepend(
                session_views(acc@),
                records(lines_from(s, start as int, i as int)),
            ),
        decreases n - i,
    {
        if output.get_char(i) == '\n' {
            let end: usize = if i > start && output.get_char(i - 1) == '\r' {
                i - 1
            } else {
                i
            };
            let l = output.substring_char(start, end);
            assert(l@ =~= strip_cr(s.subrange(start as int, i as int)));
            let ghost rest = lines_from(s, i + 1, i + 1);
            let ghost before = session_views(acc@);
            proof {
                lemma_records_cons(l@, rest);
                lemma_prepend_assoc(before, seq![], records(rest));
            }
            match take_line(l, &mut acc) {
                Ok(()) => {
                    proof {
                        if !is_blank(l@) {
                            let v = line_record(l@)->Ok_0;
                            lemma_prepend_assoc(before, seq![v], records(rest));
                        } else {
                            assert(before + Seq::<SessionView>::empty() =~= before);
                        }
                    }
                },
                Err(m) => {
                    return Err(TmuxError::ParseError(m));
                },
            }
            start = i + 1;
        }
        i += 1;
    }
    if start < n {
        let l = output.substring_char(start, n);
        assert(lines_from(s, start as int, n as int) == seq![l@]);
        proof {
            lemma_records_cons(l@, seq![]);
        }
        match take_line(l, &mut acc) {
            Ok(()) => {},
            Err(m) => {
                return Err(TmuxError::ParseError(m));
            },
        }
    } else {
        assert(session_views(acc@) + Seq::<SessionView>::empty() =~= session_views(acc@));
    }
    Ok(acc)
}

proof fn lemma_lines_of_blank(s: Seq<char>, start: int, i: int)
    requires
        is_blank(s),
        0 <= start <= i <= s.len(),
    ensures
        forall|k: int| 0 <= k < lines_from(s, start, i).len() ==> is_blank(
            #[trigger] lines_from(s, start, i)[k],
        ),
    decreases s.len() - i,
{
    if i >= s.len() {
        if start < s.len() {
            assert(is_blank(s.subrange(start, s.len() as int)));
            assert(lines_from(s, start, i) == seq![s.subrange(start, s.len() as int)]);
        }
    } else if s[i] == '\n' {
        lemma_lines_of_blank(s, i + 1, i + 1);
        let l = strip_cr(s.subrange(start, i));
        let whole = s.subrange(start, i);
        assert(is_blank(whole));
        assert forall|j: int| 0 <= j < l.len() implies is_white(#[trigger] l[j]) by {
            assert(l[j] == whole[j]);
        }
        let rest = lines_from(s, i + 1, i + 1);
        assert forall|k: int| 0 <= k < lines_from(s, start, i).len() implies is_blank(
            #[trigger] lines_from(s, start, i)[k],
        ) by {
            assert(lines_from(s, start, i) == seq![l] + rest);
            if k > 0 {
                assert(lines_from(s, start, i)[k] == rest[k - 1]);
            } else {
                assert(lines_from(s, start, i)[k] == l);
            }
        }
    } else {
        lemma_lines_of_blank(s, start, i + 1);
        assert(lines_from(s, start, i) == lines_from(s, start, i + 1));
    }
}

proof fn lemma_records_of_blank(ls: Seq<Seq<char>>)
    requires
        forall|k: int| 0 <= k < ls.len() ==> is_blank(#[trigger] ls[k]),
    ensures
        records(ls) == Ok::<Seq<SessionView>, Seq<char>>(seq![]),
    decreases ls.len(),
{
    if ls.len() > 0 {
        let t = ls.drop_first();
        assert forall|k: int| 0 <= k < t.len() implies is_blank(#[trigger] t[k]) by {
            assert(t[k] == ls[k + 1]);
        }
        lemma_records_of_blank(t);
    }
}

/// A feed of white space only, the empty feed included, holds no session
/// and no error.
pub proof fn lemma_blank_feed_is_empty(s: Seq<char>)
    requires
        is_blank(s),
    ensures
        parse_feed(s) == Ok::<Seq<SessionView>, Seq<char>>(seq![]),
{
    lemma_lines_of_blank(s, 0, 0);
    lemma_records_of_blank(lines(s));
}

proof fn lemma_records_error(ls: Seq<Seq<char>>, k: int)
    requires
        0 <= k < ls.len(),
        !is_blank(ls[k]),
        line_record(ls[k]) is Err,
    ensures
        records(ls) is Err,
        (forall|j: int| 0 <= j < k ==> is_blank(#[trigger] ls[j]) || line_record(ls[j]) is Ok)
            ==> records(ls) == Err::<Seq<SessionView>, Seq<char>>(line_record(ls[k])->Err_0),
    decreases ls.len(),
{
    if k > 0 {
        let t = ls.drop_first();
        assert(t[k - 1] == ls[k]);
        lemma_records_error(t, k - 1);
        if forall|j: int| 0 <= j < k ==> is_blank(#[trigger] ls[j]) || line_record(ls[j]) is Ok {
            assert forall|j: int| 0 <= j < k - 1 implies is_blank(#[trigger] t[j]) || line_record(
                t[j],
            ) is Ok by {
                assert(t[j] == ls[j + 1]);
            }
        }
    }
}

/// A non-blank line with fewer than six fields fails the whole feed, whatever
/// the other lines hold.
pub proof fn lemma_short_line_fails_feed(s: Seq<char>, k: int)
    requires
        0 <= k < lines(s).len(),
        !is_blank(lines(s)[k]),
        fields(lines(s)[k]).len() < 6,
    ensures
        parse_feed(s) is Err,
{
    lemma_records_error(lines(s), k);
}

/// A non-blank line whose attached count or one of whose timestamps is not
/// an integer fails the whole feed; where no line before it fails, the
/// message names that field and gives its text.
pub proof fn lemma_bad_number_fails_feed(s: Seq<char>, k: int)
    requires
        0 <= k < lines(s).len(),
        !is_blank(lines(s)[k]),
        fields(lines(s)[k]).len() >= 6,
        text_u32(fields(lines(s)[k])[1]) is None || text_i64(fields(lines(s)[k])[2]) is None
            || text_i64(fields(lines(s)[k])[3]) is None,
    ensures
        parse_feed(s) is Err,
        (forall|j: int|
            0 <= j < k ==> is_blank(#[trigger] lines(s)[j]) || line_record(lines(s)[j]) is Ok)
            ==> ({
            let f = fields(lines(s)[k]);
            let m = parse_feed(s)->Err_0;
            &&& text_u32(f[1]) is None ==> m == "Invalid attached count: "@ + f[1]
            &&& text_u32(f[1]) is Some && text_i64(f[2]) is None ==> m
                == "Invalid activity timestamp: "@ + f[2]
            &&& text_u32(f[1]) is Some && text_i64(f[2]) is Some && text_i64(f[3]) is None
                ==> m == "Invalid created timestamp: "@ + f[3]
        }),
{
    lemma_records_error(lines(s), k);
}

proof fn lemma_lines_without_newline(s: Seq<char>, i: int)
    requires
        0 <= i <= s.len(),
        s.len() > 0,
        forall|j: int| 0 <= j < s.len() ==> s[j] != '\n',
    ensures
        lines_from(s, 0, i) == seq![s],
    decreases s.len() - i,
{
    if i < s.len() {
        lemma_lines_without_newline(s, i + 1);
    } else {
        assert(s.subrange(0, s.len() as int) =~= s);
    }
}

/// A feed of one well-formed line gives one session, whose status and window
/// count are read back from that line's own fields: `Idle` for no attached
/// client, `Active` for one or more.
pub proof fn lemma_single_line_feed(l: Seq<char>)
    requires
        forall|j: int| 0 <= j < l.len() ==> l[j] != '\n',
        !is_blank(l),
        line_record(l) is Ok,
    ensures
        parse_feed(l) == Ok::<Seq<SessionView>, Seq<char>>(seq![line_record(l)->Ok_0]),
        ({
            let f = fields(l);
            let v = line_record(l)->Ok_0;
            &&& v.name == f[0]
            &&& text_u32(f[1]) == Some(0u32) ==> v.status == SessionStatus::Idle
            &&& text_u32(f[1])->0 > 0 ==> v.status == SessionStatus::Active
            &&& v.window_count == text_u32(f[5])->0 as nat
            &&& v.working_directory == f[4]
        }),
{
    lemma_lines_without_newline(l, 0);
    lemma_records_cons(l, seq![]);
}

/// Parsing the same text twice gives the same outcome: equal sessions, or
/// equal errors.
pub proof fn lemma_reparse_agrees(
    s: Seq<char>,
    first: Result<Vec<Session>, TmuxError>,
    second: Result<Vec<Session>, TmuxError>,
)
    requires
        feed_outcome(first, parse_feed(s)),
        feed_outcome(second, parse_feed(s)),
    ensures
        first is Ok <==> second is Ok,
        first is Ok ==> session_views(first->Ok_0@) == session_views(second->Ok_0@),
        first is Err ==> first->Err_0@ == second->Err_0@,
{
}

} // verus!
