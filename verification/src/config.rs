//! Service settings: the listening port, the host address, the database path
//! and the set of trusted origins, read from their textual form.

use vstd::prelude::*;
use crate::text::string_push;

verus! {

/// The pieces of `s` between occurrences of `sep`, as `str::split` yields them:
/// one more piece than there are separators, empty pieces included.
pub open spec fn split_on(s: Seq<char>, sep: char) -> Seq<Seq<char>>
    decreases s.len(),
{
    if s.len() == 0 {
        seq![Seq::<char>::empty()]
    } else {
        let rest = split_on(s.drop_last(), sep);
        if s.last() == sep {
            rest.push(Seq::<char>::empty())
        } else {
            rest.update(rest.len() - 1, rest.last().push(s.last()))
        }
    }
}

pub proof fn lemma_split_on_nonempty(s: Seq<char>, sep: char)
    ensures
        split_on(s, sep).len() >= 1,
    decreases s.len(),
{
    if s.len() > 0 {
        lemma_split_on_nonempty(s.drop_last(), sep);
    }
}

/// The number of occurrences of `c` in `s`.
pub open spec fn count_char(s: Seq<char>, c: char) -> nat
    decreases s.len(),
{
    if s.len() == 0 {
        0
    } else {
        count_char(s.drop_last(), c) + if s.last() == c { 1nat } else { 0nat }
    }
}

/// Splitting gives one more piece than there are separators.
pub proof fn lemma_split_on_len(s: Seq<char>, sep: char)
    ensures
        split_on(s, sep).len() == count_char(s, sep) + 1,
    decreases s.len(),
{
    if s.len() > 0 {
        lemma_split_on_len(s.drop_last(), sep);
    }
}

/// A host address has one component more than it has dots.
pub proof fn lemma_host_component_count(host: Seq<char>)
    ensures
        host_numbers(host).len() == count_char(host, '.') + 1,
{
    lemma_split_on_len(host, '.');
}

/// The pieces joined back together, with `sep` between each two.
pub open spec fn join_with(pieces: Seq<Seq<char>>, sep: char) -> Seq<char>
    decreases pieces.len(),
{
    if pieces.len() == 0 {
        Seq::empty()
    } else if pieces.len() == 1 {
        pieces[0]
    } else {
        join_with(pieces.drop_last(), sep) + seq![sep] + pieces.last()
    }
}

proof fn lemma_join_extend_last(pieces: Seq<Seq<char>>, sep: char, c: char)
    requires
        pieces.len() >= 1,
    ensures
        join_with(pieces.update(pieces.len() - 1, pieces.last().push(c)), sep) == join_with(pieces, sep).push(c),
{
    let q = pieces.update(pieces.len() - 1, pieces.last().push(c));
    if pieces.len() == 1 {
        assert(q[0] == pieces[0].push(c));
    } else {
        assert(q.drop_last() =~= pieces.drop_last());
        assert(join_with(q, sep) =~= join_with(pieces, sep).push(c));
    }
}

/// Splitting takes a text apart at its separators and nothing else: no piece
/// holds the separator, and joining the pieces with it gives the text back.
pub proof fn lemma_split_on_join(s: Seq<char>, sep: char)
    ensures
        join_with(split_on(s, sep), sep) == s,
        forall|i: int| 0 <= i < split_on(s, sep).len() ==> !(#[trigger] split_on(s, sep)[i]).contains(sep),
    decreases s.len(),
{
    if s.len() > 0 {
        let rest = split_on(s.drop_last(), sep);
        lemma_split_on_join(s.drop_last(), sep);
        lemma_split_on_nonempty(s.drop_last(), sep);
        if s.last() == sep {
            let p = rest.push(Seq::<char>::empty());
            assert(p.drop_last() =~= rest);
            assert(join_with(p, sep) =~= s);
            assert forall|i: int| 0 <= i < p.len() implies !(#[trigger] p[i]).contains(sep) by {
                if i < rest.len() {
                    assert(p[i] == rest[i]);
                }
            }
        } else {
            let p = rest.update(rest.len() - 1, rest.last().push(s.last()));
            lemma_join_extend_last(rest, sep, s.last());
            assert(join_with(p, sep) =~= s);
            assert forall|i: int| 0 <= i < p.len() implies !(#[trigger] p[i]).contains(sep) by {
                if i < rest.len() - 1 {
                    assert(p[i] == rest[i]);
                } else {
                    let last = rest.last();
                    assert(!rest[rest.len() - 1].contains(sep));
                    if p[i].contains(sep) {
                        let k = choose|k: int| 0 <= k < p[i].len() && p[i][k] == sep;
                        assert(p[i] == last.push(s.last()));
                        if k < last.len() {
                            assert(last[k] == sep);
                        }
                    }
                }
            }
        }
    }
}

/// The views of a vector of strings.
pub open spec fn string_views(v: Seq<String>) -> Seq<Seq<char>> {
    v.map_values(|p: String| p@)
}

/// Splits `s` at every `sep` (`str::split` with a char pattern).
pub fn split_text(s: &str, sep: char) -> (pieces: Vec<String>)
    ensures
        string_views(pieces@) == split_on(s@, sep),
{
    let mut pieces: Vec<String> = Vec::new();
    let mut current = String::new();
    let ghost mut seen: Seq<char> = Seq::empty();
    for c in it: s.chars()
        invariant
            it.seq() == s@,
            seen == s@.take(it.index() as int),
            string_views(pieces@).push(current@) == split_on(seen, sep),
    {
        proof {
            lemma_split_on_nonempty(seen, sep);
        }
        let ghost prev = seen;
        proof { seen = seen.push(c); }
        assert(seen.drop_last() == prev);
        assert(seen =~= s@.take(it.index() + 1));
        if c == sep {
            let done = current;
            pieces.push(done);
            current = String::new();
            assert(string_views(pieces@).push(current@) =~= split_on(seen, sep));
        } else {
            string_push(&mut current, c);
            assert(string_views(pieces@).push(current@) =~= split_on(seen, sep));
        }
    }
    pieces.push(current);
    assert(s@.take(s@.len() as int) == s@);
    pieces
}

pub open spec fn is_decimal_digit(c: char) -> bool {
    '0' <= c && c <= '9'
}

/// The number that a string of decimal digits denotes.
pub open spec fn digits_value(d: Seq<char>) -> nat
    decreases d.len(),
{
    if d.len() == 0 {
        0
    } else {
        digits_value(d.drop_last()) * 10 + ((d.last() as nat) - ('0' as nat)) as nat
    }
}

/// The text after an optional leading `+`.
pub open spec fn unsigned_digits(s: Seq<char>) -> Seq<char> {
    if s.len() > 0 && s[0] == '+' { s.drop_first() } else { s }
}

pub open spec fn all_decimal_digits(d: Seq<char>) -> bool {
    forall|i: int| 0 <= i < d.len() ==> is_decimal_digit(#[trigger] d[i])
}

/// What `str::parse::<u16>` gives for `s`: as std documents for unsigned
/// integers, an optional `+` followed by one or more decimal digits, whose
/// value must fit in a `u16`; anything else is an error.
pub open spec fn u16_from_text(s: Seq<char>) -> Option<u16> {
    let d = unsigned_digits(s);
    if d.len() > 0 && all_decimal_digits(d) && digits_value(d) <= u16::MAX {
        Some(digits_value(d) as u16)
    } else {
        None
    }
}

proof fn lemma_digits_value_grows(d: Seq<char>, c: char)
    requires
        is_decimal_digit(c),
    ensures
        digits_value(d.push(c)) >= digits_value(d),
        digits_value(d.push(c)) == digits_value(d) * 10 + ((c as nat) - ('0' as nat)),
{
    assert(d.push(c).drop_last() =~= d);
}

/// Parses a decimal `u16` the way `str::parse::<u16>` does.
pub fn parse_u16(s: &str) -> (res: Option<u16>)
    ensures
        res == u16_from_text(s@),
{
    let ghost d = unsigned_digits(s@);
    // `value` is the digits' value, capped at one past the largest u16.
    let mut value: u32 = 0;
    let mut nonempty = false;
    let mut all_digits = true;
    let mut first = true;
    let mut skipped_sign = false;
    let ghost mut seen: Seq<char> = Seq::empty();
    for c in it: s.chars()
        invariant
            it.seq() == s@,
            d == unsigned_digits(s@),
            first <==> it.index() == 0,
            skipped_sign <==> (s@.len() > 0 && s@[0] == '+' && it.index() > 0),
            seen == (if skipped_sign { s@.take(it.index() as int).drop_first() } else { s@.take(it.index() as int) }),
            nonempty <==> seen.len() > 0,
            all_digits <==> all_decimal_digits(seen),
            all_digits ==> value == (if digits_value(seen) <= u16::MAX { digits_value(seen) as int } else { u16::MAX + 1 }),
            value <= u16::MAX + 1,
    {
        let ghost idx = it.index();
        assert(s@[idx as int] == c);
        if first && c == '+' {
            skipped_sign = true;
            assert(s@.take(1).drop_first() =~= Seq::<char>::empty());
        } else {
            let ghost prev = seen;
            proof {
                seen = seen.push(c);
                if skipped_sign {
                    assert(seen =~= s@.take(idx + 1).drop_first());
                } else {
                    assert(seen =~= s@.take(idx + 1));
                }
            }
            nonempty = true;
            assert(forall|i: int| 0 <= i < prev.len() ==> seen[i] == prev[i]);
            if all_digits && '0' <= c && c <= '9' {
                proof { lemma_digits_value_grows(prev, c); }
                let digit: u32 = (c as u32) - ('0' as u32);
                if value <= 65535 {
                    let next: u32 = value * 10 + digit;
                    if next <= 65535 {
                        value = next;
                    } else {
                        value = 65536;
                    }
                }
            } else {
                all_digits = false;
                assert(!is_decimal_digit(c) ==> !is_decimal_digit(seen[seen.len() - 1]));
            }
        }
        first = false;
    }
    proof {
        assert(s@.take(s@.len() as int) =~= s@);
        assert(seen =~= d);
    }
    if nonempty && all_digits && value <= 65535 {
        Some(value as u16)
    } else {
        proof {
            if nonempty && !all_digits {
                let k = choose|i: int| 0 <= i < d.len() && !is_decimal_digit(#[trigger] d[i]);
                assert(0 <= k < d.len() && !is_decimal_digit(d[k]));
            }
        }
        None
    }
}

/// The number a host component stands for: its `u16` value, or 0 where the
/// component is not a valid `u16`.
pub open spec fn host_component(p: Seq<char>) -> u16 {
    match u16_from_text(p) {
        Some(v) => v,
        None => 0,
    }
}

/// The components of a dotted host address, each read as a `u16` or 0.
pub open spec fn host_numbers(host: Seq<char>) -> Seq<u16> {
    split_on(host, '.').map_values(|p: Seq<char>| host_component(p))
}

/// Reads a dotted host address such as `127.0.0.1` into its components;
/// a component that is not a valid `u16` reads as 0.
pub fn parse_host(host: &str) -> (res: Vec<u16>)
    ensures
        res@ == host_numbers(host@),
{
    let pieces = split_text(host, '.');
    let mut res: Vec<u16> = Vec::new();
    let n = pieces.len();
    for i in 0..n
        invariant
            n == pieces@.len(),
            string_views(pieces@) == split_on(host@, '.'),
            res@ == host_numbers(host@).take(i as int),
    {
        let v = match parse_u16(pieces[i].as_str()) {
            Some(v) => v,
            None => 0,
        };
        assert(string_views(pieces@)[i as int] == pieces@[i as int]@);
        res.push(v);
        assert(res@ =~= host_numbers(host@).take(i + 1));
    }
    assert(host_numbers(host@).take(n as int) =~= host_numbers(host@));
    res
}

/// The decimal digit for `d` below 10.
pub open spec fn digit_char(d: nat) -> char {
    if d == 0 { '0' } else if d == 1 { '1' } else if d == 2 { '2' } else if d == 3 { '3' }
    else if d == 4 { '4' } else if d == 5 { '5' } else if d == 6 { '6' } else if d == 7 { '7' }
    else if d == 8 { '8' } else { '9' }
}

proof fn lemma_digit_char(d: nat)
    requires
        d < 10,
    ensures
        is_decimal_digit(digit_char(d)),
        digit_char(d) != '+',
        (digit_char(d) as nat) - ('0' as nat) == d,
{
}

/// The usual decimal text of `v`, without sign or leading zeros.
pub open spec fn decimal_text(v: nat) -> Seq<char>
    decreases v,
{
    if v < 10 {
        seq![digit_char(v)]
    } else {
        decimal_text(v / 10).push(digit_char(v % 10))
    }
}

/// The decimal text of a number is a string of digits that denotes it.
pub proof fn lemma_decimal_text(v: nat)
    ensures
        decimal_text(v).len() > 0,
        all_decimal_digits(decimal_text(v)),
        decimal_text(v)[0] != '+',
        digits_value(decimal_text(v)) == v,
    decreases v,
{
    lemma_digit_char(v % 10);
    if v < 10 {
        assert(v % 10 == v);
        let t = seq![digit_char(v)];
        assert(decimal_text(v) == t);
        assert(t.drop_last() =~= Seq::<char>::empty());
        assert(digits_value(t.drop_last()) == 0);
        assert(t.last() == digit_char(v));
        assert(digits_value(t) == digits_value(t.drop_last()) * 10 + ((t.last() as nat) - ('0' as nat)) as nat);
    } else {
        lemma_decimal_text(v / 10);
        let t = decimal_text(v);
        assert(v == (v / 10) * 10 + v % 10);
        assert(t.drop_last() =~= decimal_text(v / 10));
        assert(forall|i: int| 0 <= i < t.len() - 1 ==> t[i] == decimal_text(v / 10)[i]);
        assert(t.last() == digit_char(v % 10));
        assert(digits_value(t) == digits_value(decimal_text(v / 10)) * 10 + ((t.last() as nat) - ('0' as nat)) as nat);
        assert(digits_value(t) == (v / 10) * 10 + v % 10);
    }
}

/// Parsing reads back every `u16` from its decimal text, also after a `+`.
pub proof fn lemma_u16_decimal_round_trip(v: u16)
    ensures
        u16_from_text(decimal_text(v as nat)) == Some(v),
        u16_from_text(seq!['+'] + decimal_text(v as nat)) == Some(v),
{
    lemma_decimal_text(v as nat);
    let t = decimal_text(v as nat);
    assert((seq!['+'] + t).drop_first() =~= t);
}

/// Numbers beyond the `u16` range are refused.
pub proof fn lemma_u16_too_large(v: nat)
    requires
        v > u16::MAX,
    ensures
        u16_from_text(decimal_text(v)) is None,
{
    lemma_decimal_text(v);
}

/// Only a `+` followed by digits, or digits alone, is ever read as a number:
/// any other character (a space, a `-`, a letter) anywhere makes the text
/// invalid.
pub proof fn lemma_u16_text_shape(s: Seq<char>)
    ensures
        u16_from_text(s) is Some ==> {
            &&& s.len() > 0
            &&& s != seq!['+']
            &&& forall|i: int| 0 <= i < s.len() ==> ('0' <= #[trigger] s[i] && s[i] <= '9') || (i == 0 && s[i] == '+')
        },
{
    if u16_from_text(s) is Some {
        let d = unsigned_digits(s);
        if s.len() > 0 && s[0] == '+' {
            assert forall|i: int| 0 <= i < s.len() implies ('0' <= #[trigger] s[i] && s[i] <= '9') || (i == 0 && s[i] == '+') by {
                if i > 0 {
                    assert(s[i] == d[i - 1]);
                }
            }
            if s == seq!['+'] {
                assert(d.len() == 0);
            }
        }
    }
}

/// Each component of a host address is what parsing its piece as a `u16`
/// gives, and 0 exactly where that parse fails.
pub proof fn lemma_host_component_value(host: Seq<char>, i: int)
    requires
        0 <= i < split_on(host, '.').len(),
    ensures
        host_numbers(host).len() == split_on(host, '.').len(),
        u16_from_text(split_on(host, '.')[i]) matches Some(v) ==> host_numbers(host)[i] == v,
        u16_from_text(split_on(host, '.')[i]) is None ==> host_numbers(host)[i] == 0,
{
}

/// A component written as the decimal text of a `u16` reads as that number.
pub proof fn lemma_host_decimal_component(host: Seq<char>, i: int, v: u16)
    requires
        0 <= i < split_on(host, '.').len(),
        split_on(host, '.')[i] == decimal_text(v as nat),
    ensures
        host_numbers(host)[i] == v,
{
    lemma_u16_decimal_round_trip(v);
}

/// The views of `v` are pairwise distinct.
pub open spec fn distinct_views(v: Seq<String>) -> bool {
    forall|i: int, j: int| 0 <= i < j < v.len() ==> v[i]@ != v[j]@
}

/// Whether some string in `v` has the view `x`.
pub fn contains_text(v: &Vec<String>, x: &String) -> (res: bool)
    ensures
        res <==> string_views(v@).contains(x@),
{
    let n = v.len();
    for i in 0..n
        invariant
            n == v@.len(),
            forall|k: int| 0 <= k < i ==> v@[k]@ != x@,
    {
        if v[i] == *x {
            assert(string_views(v@)[i as int] == x@);
            return true;
        }
    }
    proof {
        if string_views(v@).contains(x@) {
            let k = choose|k: int| 0 <= k < string_views(v@).len() && string_views(v@)[k] == x@;
            assert(v@[k]@ == x@);
        }
    }
    false
}

/// The trusted origins are the comma-free pieces of the list between its
/// commas: each piece is one of them, none holds a comma, and the pieces
/// joined with commas give the list back.
pub proof fn lemma_origins_are_pieces(list: Seq<char>)
    ensures
        join_with(split_on(list, ','), ',') == list,
        forall|i: int| 0 <= i < split_on(list, ',').len() ==> origin_set(list).contains(#[trigger] split_on(list, ',')[i]),
        forall|x: Seq<char>| #[trigger] origin_set(list).contains(x) ==> !x.contains(',') && exists|i: int| 0 <= i < split_on(list, ',').len() && split_on(list, ',')[i] == x,
{
    lemma_split_on_join(list, ',');
    let p = split_on(list, ',');
    assert forall|i: int| 0 <= i < p.len() implies origin_set(list).contains(#[trigger] p[i]) by {
        assert(p.contains(p[i]));
    }
    assert forall|x: Seq<char>| #[trigger] origin_set(list).contains(x) implies !x.contains(',') && exists|i: int| 0 <= i < p.len() && p[i] == x by {
        assert(p.contains(x));
        let i = choose|i: int| 0 <= i < p.len() && p[i] == x;
        assert(!p[i].contains(','));
    }
}

/// The set of origins named in a comma-separated list.
pub open spec fn origin_set(list: Seq<char>) -> Set<Seq<char>> {
    split_on(list, ',').to_set()
}

/// Reads a comma-separated list of origins into a set: each piece once.
pub fn parse_trusted_origins(list: &str) -> (res: Vec<String>)
    ensures
        distinct_views(res@),
        string_views(res@).to_set() == origin_set(list@),
{
    let pieces = split_text(list, ',');
    let ghost all = string_views(pieces@);
    let mut res: Vec<String> = Vec::new();
    let n = pieces.len();
    for i in 0..n
        invariant
            n == pieces@.len(),
            all == string_views(pieces@),
            all == split_on(list@, ','),
            distinct_views(res@),
            string_views(res@).to_set() == all.take(i as int).to_set(),
    {
        let piece = pieces[i].clone();
        assert(all[i as int] == piece@);
        assert(all.take(i + 1) =~= all.take(i as int).push(piece@));
        if !contains_text(&res, &piece) {
            let ghost before = res@;
            res.push(piece);
            assert(string_views(res@) =~= string_views(before).push(piece@));
            assert forall|a: int, b: int| 0 <= a < b < res@.len() implies res@[a]@ != res@[b]@ by {
                if b == res@.len() - 1 {
                    assert(string_views(before)[a] == before[a]@);
                }
            }
            assert(string_views(res@).to_set() =~= all.take(i + 1).to_set()) by {
                assert(string_views(before).push(piece@).to_set() =~= string_views(before).to_set().insert(piece@)) by {
                    string_views(before).lemma_push_to_set_commute(piece@);
                }
                all.take(i as int).lemma_push_to_set_commute(piece@);
            }
        } else {
            assert(string_views(res@).to_set() =~= all.take(i + 1).to_set()) by {
                all.take(i as int).lemma_push_to_set_commute(piece@);
            }
        }
    }
    assert(all.take(n as int) =~= all);
    res
}

/// The service's settings.
pub struct AppConfig {
    /// Origins whose requests are trusted; no origin occurs twice.
    pub trusted_origins: Vec<String>,
    /// The components of the host address.
    pub host: Vec<u16>,
    /// The port the service listens on.
    pub port: u16,
    /// Where the log database is stored.
    pub db_path: String,
}

impl AppConfig {
    /// The settings that the given texts describe, as the service reads them
    /// at start-up; `None` when the port is not a valid `u16`.
    pub fn from_settings(port: &str, host: &str, db_path: String, trusted_origins: &str) -> (res: Option<AppConfig>)
        ensures
            res is None <==> u16_from_text(port@) is None,
            res matches Some(c) ==> {
                &&& Some(c.port) == u16_from_text(port@)
                &&& c.host@ == host_numbers(host@)
                &&& c.db_path == db_path
                &&& distinct_views(c.trusted_origins@)
                &&& string_views(c.trusted_origins@).to_set() == origin_set(trusted_origins@)
            },
    {
        match parse_u16(port) {
            None => None,
            Some(p) => Some(AppConfig {
                trusted_origins: parse_trusted_origins(trusted_origins),
                host: parse_host(host),
                port: p,
                db_path,
            }),
        }
    }
}

} // verus!
