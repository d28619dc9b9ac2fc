use vstd::prelude::*;
use crate::text::{lemma_lex_irreflexive, lex_lt};

verus! {

/// The character of a decimal digit.
pub open spec fn digit(n: int) -> char {
    (n + 48) as char
}

/// The first number that `width` digits cannot write.
pub open spec fn limit(width: nat) -> int
    decreases width,
{
    if width == 0 {
        1
    } else {
        10 * limit((width - 1) as nat)
    }
}

/// A number written with exactly `width` decimal digits, zeros in front.
pub open spec fn padded(n: int, width: nat) -> Seq<char>
    decreases width,
{
    if width == 0 {
        Seq::empty()
    } else {
        padded(n / 10, (width - 1) as nat).push(digit(n % 10))
    }
}

/// A day of the calendar.
pub struct Day {
    pub year: int,
    pub month: int,
    pub day: int,
}

/// The numbers of the day fit the digits that a date has for them.
pub open spec fn writable(day: Day) -> bool {
    &&& 0 <= day.year < 10000
    &&& 0 <= day.month < 100
    &&& 0 <= day.day < 100
}

/// The date of a day as front matter writes it: year, month and day with
/// four, two and two digits, hyphens between them.
pub open spec fn iso_date(day: Day) -> Seq<char> {
    padded(day.year, 4) + seq!['-'] + padded(day.month, 2) + seq!['-'] + padded(day.day, 2)
}

/// The first day comes before the second in the calendar.
pub open spec fn earlier(a: Day, b: Day) -> bool {
    a.year < b.year || (a.year == b.year && (a.month < b.month || (a.month == b.month && a.day
        < b.day)))
}

/// Two texts that begin with parts of one length are ordered by those parts
/// where the parts differ, and by what follows them where they are the same.
pub proof fn lemma_lex_concat(p: Seq<char>, q: Seq<char>, s: Seq<char>, t: Seq<char>)
    requires
        p.len() == q.len(),
    ensures
        p == q ==> lex_lt(p + s, q + t) == lex_lt(s, t),
        p != q ==> lex_lt(p + s, q + t) == lex_lt(p, q),
    decreases p.len(),
{
    if p.len() == 0 {
        assert(p =~= q);
        assert(p + s =~= s);
        assert(q + t =~= t);
    } else {
        let a = p + s;
        let b = q + t;
        assert(a[0] == p[0]);
        assert(b[0] == q[0]);
        assert(a.skip(1) =~= p.skip(1) + s);
        assert(b.skip(1) =~= q.skip(1) + t);
        if p[0] == q[0] {
            lemma_lex_concat(p.skip(1), q.skip(1), s, t);
            if p.skip(1) == q.skip(1) {
                assert(p =~= seq![p[0]] + p.skip(1));
                assert(q =~= seq![q[0]] + q.skip(1));
            }
        }
    }
}

/// Numbers written with the same count of digits are ordered as texts the
/// way they are ordered as numbers, and differ as texts where they differ.
pub proof fn lemma_padded_order(a: int, b: int, width: nat)
    requires
        0 <= a < limit(width),
        0 <= b < limit(width),
    ensures
        padded(a, width).len() == width,
        padded(b, width).len() == width,
        lex_lt(padded(a, width), padded(b, width)) <==> a < b,
        padded(a, width) == padded(b, width) <==> a == b,
    decreases width,
{
    if width > 0 {
        let w = (width - 1) as nat;
        lemma_padded_order(a / 10, b / 10, w);
        let p = padded(a / 10, w);
        let q = padded(b / 10, w);
        let s = seq![digit(a % 10)];
        let t = seq![digit(b % 10)];
        assert(padded(a, width) =~= p + s);
        assert(padded(b, width) =~= q + t);
        lemma_lex_concat(p, q, s, t);
        assert(digit(a % 10) as int == a % 10 + 48);
        assert(digit(b % 10) as int == b % 10 + 48);
        assert(lex_lt(s, t) <==> a % 10 < b % 10) by {
            assert(s.skip(1) =~= Seq::<char>::empty());
            assert(t.skip(1) =~= Seq::<char>::empty());
            assert(s[0] == digit(a % 10));
            assert(t[0] == digit(b % 10));
            lemma_lex_irreflexive(Seq::<char>::empty());
        }
        assert(s == t <==> a % 10 == b % 10) by {
            assert(s[0] == digit(a % 10));
            assert(t[0] == digit(b % 10));
        }
        if padded(a, width) == padded(b, width) {
            assert((p + s)[w as int] == (q + t)[w as int]);
            assert(p =~= (p + s).take(w as int));
            assert(q =~= (q + t).take(w as int));
        }
    }
}

/// For days whose numbers fit their digits, the order of the dates as texts
/// is the order of the days in the calendar: a date comes before another as
/// a text exactly when its day is the earlier one.
pub proof fn lemma_iso_dates_order_as_days(a: Day, b: Day)
    requires
        writable(a),
        writable(b),
    ensures
        lex_lt(iso_date(a), iso_date(b)) <==> earlier(a, b),
        iso_date(a) == iso_date(b) <==> a == b,
{
    assert(limit(4) == 10000 && limit(2) == 100) by {
        reveal_with_fuel(limit, 5);
    }
    lemma_padded_order(a.year, b.year, 4);
    lemma_padded_order(a.month, b.month, 2);
    lemma_padded_order(a.day, b.day, 2);
    let hyphen = seq!['-'];
    let tail_a = padded(a.day, 2);
    let tail_b = padded(b.day, 2);
    let mid_a = padded(a.month, 2) + (hyphen + tail_a);
    let mid_b = padded(b.month, 2) + (hyphen + tail_b);
    lemma_lex_concat(hyphen, hyphen, tail_a, tail_b);
    lemma_lex_concat(padded(a.month, 2), padded(b.month, 2), hyphen + tail_a, hyphen + tail_b);
    lemma_lex_concat(hyphen, hyphen, mid_a, mid_b);
    lemma_lex_concat(padded(a.year, 4), padded(b.year, 4), hyphen + mid_a, hyphen + mid_b);
    assert(iso_date(a) =~= padded(a.year, 4) + (hyphen + mid_a));
    assert(iso_date(b) =~= padded(b.year, 4) + (hyphen + mid_b));
    if iso_date(a) == iso_date(b) {
        lemma_lex_irreflexive(iso_date(a));
        assert(iso_date(a).subrange(0, 4) =~= padded(a.year, 4));
        assert(iso_date(b).subrange(0, 4) =~= padded(b.year, 4));
        assert(iso_date(a).subrange(5, 7) =~= padded(a.month, 2));
        assert(iso_date(b).subrange(5, 7) =~= padded(b.month, 2));
        assert(iso_date(a).subrange(8, 10) =~= padded(a.day, 2));
        assert(iso_date(b).subrange(8, 10) =~= padded(b.day, 2));
    }
    if a.year == b.year && a.month == b.month && a.day == b.day {
        assert(a == b);
    }
}

} // verus!
