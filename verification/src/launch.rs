//! What the widget is started with: the three optional arguments of the
//! command line.

use vstd::prelude::*;
use crate::text::{chars_of, replace_all, replace_all_in, string_of};

verus! {

/// The line break as `<br/>`.
pub open spec fn br_closed() -> Seq<char> {
    seq!['<', 'b', 'r', '/', '>']
}

/// The line break as `<br>`.
pub open spec fn br_open() -> Seq<char> {
    seq!['<', 'b', 'r', '>']
}

/// `raw` with every `<br/>`, and then every `<br>`, turned into a line feed.
pub open spec fn with_line_feeds(raw: Seq<char>) -> Seq<char> {
    replace_all(replace_all(raw, br_closed(), seq!['\n']), br_open(), seq!['\n'])
}

/// The memo's text for the argument `raw`: each `<br/>` and each `<br>` in
/// it stands for a line break.
pub fn normalize_breaks(raw: &str) -> (text: String)
    ensures
        text@ == with_line_feeds(raw@),
{
    let mut closed: Vec<char> = Vec::new();
    closed.push('<');
    closed.push('b');
    closed.push('r');
    closed.push('/');
    closed.push('>');
    assert(closed@ =~= br_closed());
    let mut open: Vec<char> = Vec::new();
    open.push('<');
    open.push('b');
    open.push('r');
    open.push('>');
    assert(open@ =~= br_open());
    let mut feed: Vec<char> = Vec::new();
    feed.push('\n');
    assert(feed@ =~= seq!['\n']);
    let first = replace_all_in(&chars_of(raw), &closed, &feed);
    string_of(&replace_all_in(&first, &open, &feed))
}

/// The value of a decimal digit; no digit has a value of ten or more.
pub open spec fn digit_value(c: char) -> nat {
    if '0' <= c <= '9' {
        (c as u32 - 48) as nat
    } else {
        10
    }
}

/// Every character is a decimal digit.
pub open spec fn all_digits(s: Seq<char>) -> bool {
    forall|i: int| 0 <= i < s.len() ==> digit_value(#[trigger] s[i]) < 10
}

/// The number that the digits write.
pub open spec fn digits_value(s: Seq<char>) -> nat
    decreases s.len(),
{
    if s.len() == 0 {
        0
    } else {
        digits_value(s.drop_last()) * 10 + digit_value(s.last())
    }
}

/// `s` without a plus sign at its start.
pub open spec fn unsigned_part(s: Seq<char>) -> Seq<char> {
    if s.len() > 0 && s[0] == '+' {
        s.skip(1)
    } else {
        s
    }
}

/// The minutes that `s` writes: one or more decimal digits, with or without
/// a plus sign before them, whose number fits in 64 bits. Anything else
/// writes none.
pub open spec fn minutes_of(s: Seq<char>) -> Option<u64> {
    let d = unsigned_part(s);
    if d.len() > 0 && all_digits(d) && digits_value(d) <= u64::MAX {
        Some(digits_value(d) as u64)
    } else {
        None
    }
}

/// More digits do not write a smaller number.
pub proof fn digits_value_grows(s: Seq<char>, k: int)
    requires
        0 <= k <= s.len(),
    ensures
        digits_value(s.take(k)) <= digits_value(s),
    decreases s.len() - k,
{
    if k < s.len() {
        digits_value_grows(s, k + 1);
        assert(s.take(k + 1).drop_last() =~= s.take(k));
    } else {
        assert(s.take(k) =~= s);
    }
}

/// The minutes that the argument writes, if it writes any.
pub fn parse_minutes(arg: &str) -> (minutes: Option<u64>)
    ensures
        minutes == minutes_of(arg@),
{
    let s = chars_of(arg);
    let from: usize = if s.len() > 0 && s[0] == '+' {
        1
    } else {
        0
    };
    let ghost d = unsigned_part(s@);
    assert(d =~= s@.skip(from as int));
    if from == s.len() {
        return None;
    }
    let mut value: u64 = 0;
    let mut i: usize = from;
    assert(d.take(0) =~= Seq::<char>::empty());
    while i < s.len()
        invariant
            from <= i <= s.len(),
            from < s.len(),
            s@ == arg@,
            d == unsigned_part(s@),
            d == s@.skip(from as int),
            all_digits(d.take(i - from)),
            value == digits_value(d.take(i - from)),
        decreases s.len() - i,
    {
        let c = s[i];
        let ghost upto = d.take(i - from + 1);
        assert(upto.drop_last() =~= d.take(i - from));
        assert(upto.last() == c);
        if !('0' <= c && c <= '9') {
            assert(digit_value(d[i - from]) == 10);
            return None;
        }
        let v: u64 = (c as u32 - 48) as u64;
        if value > (u64::MAX - v) / 10 {
            proof {
                digits_value_grows(d, i - from + 1);
            }
            return None;
        }
        value = value * 10 + v;
        assert forall|j: int| 0 <= j < upto.len() implies digit_value(#[trigger] upto[j]) < 10 by {
            if j < i - from {
                assert(upto[j] == d.take(i - from)[j]);
            }
        }
        i += 1;
    }
    assert(d.take(s.len() - from) =~= d);
    Some(value)
}

/// What the widget is started with.
#[derive(Clone, Debug)]
pub struct Launch {
    pub name: String,
    pub memo: String,
    pub end_minutes: Option<u64>,
}

/// The name and the memo for a start without arguments, and for one with
/// `args`: the program's own name first, then the task's name, the memo and
/// the minutes to the deadline, each of which may be missing.
pub open spec fn launch_name(args: Seq<String>) -> Seq<char> {
    if args.len() > 1 {
        args[1]@
    } else {
        "作業"@
    }
}

/// The memo that the arguments ask for.
pub open spec fn launch_memo(args: Seq<String>) -> Seq<char> {
    if args.len() > 2 {
        with_line_feeds(args[2]@)
    } else {
        "**メモを編集**"@
    }
}

/// The minutes to the deadline that the arguments ask for.
pub open spec fn launch_minutes(args: Seq<String>) -> Option<u64> {
    if args.len() > 3 {
        minutes_of(args[3]@)
    } else {
        None
    }
}

impl Launch {
    /// Reads the arguments of the command line.
    pub fn from_args(args: &Vec<String>) -> (launch: Launch)
        ensures
            launch.name@ == launch_name(args@),
            launch.memo@ == launch_memo(args@),
            launch.end_minutes == launch_minutes(args@),
    {
        let name = if args.len() > 1 {
            args[1].clone()
        } else {
            "作業".to_owned()
        };
        let memo = if args.len() > 2 {
            normalize_breaks(args[2].as_str())
        } else {
            "**メモを編集**".to_owned()
        };
        let end_minutes = if args.len() > 3 {
            parse_minutes(args[3].as_str())
        } else {
            None
        };
        Launch { name, memo, end_minutes }
    }
}

} // verus!
