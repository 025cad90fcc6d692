use vstd::prelude::*;

use crate::error::Error;

verus! {

// ---------------------------------------------------------------------------------------------
// Textual model of addresses and CIDR blocks
// ---------------------------------------------------------------------------------------------

/// The pieces of `s` between occurrences of `sep`; there is always at least one piece.
pub open spec fn split(s: Seq<char>, sep: char) -> Seq<Seq<char>>
    decreases s.len(),
{
    if s.len() == 0 {
        seq![Seq::<char>::empty()]
    } else {
        let parts = split(s.drop_last(), sep);
        if s.last() == sep {
            parts.push(Seq::<char>::empty())
        } else {
            parts.update(parts.len() - 1, parts.last().push(s.last()))
        }
    }
}

/// The first index at or after `from` that holds `c`.
pub open spec fn index_of(s: Seq<char>, c: char, from: int) -> Option<int>
    decreases s.len() - from,
{
    if from < 0 || from >= s.len() {
        None
    } else if s[from] == c {
        Some(from)
    } else {
        index_of(s, c, from + 1)
    }
}

/// The first index at or after `from` where two colons follow each other.
pub open spec fn double_colon(s: Seq<char>, from: int) -> Option<int>
    decreases s.len() - from,
{
    if from < 0 || from + 1 >= s.len() {
        None
    } else if s[from] == ':' && s[from + 1] == ':' {
        Some(from)
    } else {
        double_colon(s, from + 1)
    }
}

pub open spec fn is_dec_digit(c: char) -> bool {
    '0' <= c && c <= '9'
}

pub open spec fn is_hex_digit(c: char) -> bool {
    ('0' <= c && c <= '9') || ('a' <= c && c <= 'f') || ('A' <= c && c <= 'F')
}

pub open spec fn digit_value(c: char) -> int {
    (c as int) - ('0' as int)
}

/// The number that a string of decimal digits denotes.
pub open spec fn dec_value(s: Seq<char>) -> int
    decreases s.len(),
{
    if s.len() == 0 {
        0
    } else {
        dec_value(s.drop_last()) * 10 + digit_value(s.last())
    }
}

/// One to three decimal digits, without a leading zero, denoting at most `max`.
pub open spec fn is_small_decimal(s: Seq<char>, max: int) -> bool {
    &&& 1 <= s.len() <= 3
    &&& forall|i: int| 0 <= i < s.len() ==> is_dec_digit(#[trigger] s[i])
    &&& (s.len() > 1 ==> s[0] != '0')
    &&& dec_value(s) <= max
}

/// One to four hexadecimal digits.
pub open spec fn is_hex_group(s: Seq<char>) -> bool {
    &&& 1 <= s.len() <= 4
    &&& forall|i: int| 0 <= i < s.len() ==> is_hex_digit(#[trigger] s[i])
}

/// The two kinds of piece that dotted and colon-separated addresses are made of.
#[derive(Clone, Copy, PartialEq, Eq, Structural, Debug)]
pub enum PartKind {
    Octet,
    HexGroup,
}

pub open spec fn part_ok(kind: PartKind, p: Seq<char>) -> bool {
    match kind {
        PartKind::Octet => is_small_decimal(p, 255),
        PartKind::HexGroup => is_hex_group(p),
    }
}

pub open spec fn all_parts_ok(parts: Seq<Seq<char>>, kind: PartKind) -> bool {
    forall|j: int| 0 <= j < parts.len() ==> part_ok(kind, #[trigger] parts[j])
}

/// Dotted-quad IPv4 address: four octets of 0 to 255, without leading zeros.
pub open spec fn is_ipv4_address(s: Seq<char>) -> bool {
    split(s, '.').len() == 4 && all_parts_ok(split(s, '.'), PartKind::Octet)
}

/// A run of colon-separated hex groups; the empty run counts as zero groups.
pub open spec fn hex_groups_ok(s: Seq<char>) -> bool {
    s.len() == 0 || all_parts_ok(split(s, ':'), PartKind::HexGroup)
}

pub open spec fn hex_group_count(s: Seq<char>) -> int {
    if s.len() == 0 {
        0
    } else {
        split(s, ':').len() as int
    }
}

/// IPv6 address in hex-group notation: eight groups, or at most seven around one `::`.
pub open spec fn is_ipv6_hex_address(s: Seq<char>) -> bool {
    match double_colon(s, 0) {
        None => split(s, ':').len() == 8 && all_parts_ok(split(s, ':'), PartKind::HexGroup),
        Some(k) => {
            let head = s.take(k);
            let tail = s.skip(k + 2);
            hex_groups_ok(head) && hex_groups_ok(tail) && hex_group_count(head)
                + hex_group_count(tail) <= 7
        },
    }
}

/// The last index of `s` that holds `c`.
pub open spec fn last_index_of(s: Seq<char>, c: char) -> Option<int>
    decreases s.len(),
{
    if s.len() == 0 {
        None
    } else if s.last() == c {
        Some(s.len() - 1)
    } else {
        last_index_of(s.drop_last(), c)
    }
}

/// IPv6 address: hex groups, where the last two groups may be written as a dotted-quad IPv4
/// address (`::ffff:10.0.0.1`). Such an address is valid when the dotted quad is, and the
/// address with `0:0` in its place is.
pub open spec fn is_ipv6_address(s: Seq<char>) -> bool {
    match last_index_of(s, ':') {
        Some(j) => if index_of(s.skip(j + 1), '.', 0) is Some {
            is_ipv4_address(s.skip(j + 1)) && is_ipv6_hex_address(
                s.take(j + 1) + seq!['0', ':', '0'],
            )
        } else {
            is_ipv6_hex_address(s)
        },
        None => is_ipv6_hex_address(s),
    }
}

/// An address, optionally followed by `/` and a prefix length of at most `max_prefix`.
pub open spec fn is_block(s: Seq<char>, v6: bool) -> bool {
    let max_prefix: int = if v6 {
        128
    } else {
        32
    };
    let addr_ok = |a: Seq<char>|
        if v6 {
            is_ipv6_address(a)
        } else {
            is_ipv4_address(a)
        };
    match index_of(s, '/', 0) {
        None => addr_ok(s),
        Some(p) => addr_ok(s.take(p)) && is_small_decimal(s.skip(p + 1), max_prefix),
    }
}

/// The two address families.
#[derive(Clone, Copy, PartialEq, Eq, Structural, Debug)]
pub enum IpVersion {
    V4,
    V6,
}

/// Which family an address or CIDR block belongs to; `None` when it is malformed.
pub open spec fn ip_version(s: Seq<char>) -> Option<IpVersion> {
    if is_block(s, false) {
        Some(IpVersion::V4)
    } else if is_block(s, true) {
        Some(IpVersion::V6)
    } else {
        None
    }
}

// ---------------------------------------------------------------------------------------------
// Lemmas on `split`
// ---------------------------------------------------------------------------------------------

pub proof fn lemma_split_nonempty(s: Seq<char>, sep: char)
    ensures
        split(s, sep).len() >= 1,
    decreases s.len(),
{
    if s.len() > 0 {
        lemma_split_nonempty(s.drop_last(), sep);
    }
}

// ---------------------------------------------------------------------------------------------
// Parser
// ---------------------------------------------------------------------------------------------

fn to_chars(s: &str) -> (r: Vec<char>)
    ensures
        r@ == s@,
{
    let n = s.unicode_len();
    let mut out: Vec<char> = Vec::new();
    let mut i: usize = 0;
    while i < n
        invariant
            n == s@.len(),
            i <= n,
            out@ == s@.take(i as int),
        decreases n - i,
    {
        out.push(s.get_char(i));
        i = i + 1;
        assert(out@ =~= s@.take(i as int));
    }
    assert(out@ =~= s@);
    out
}

fn digit(c: char) -> (d: u32)
    requires
        is_dec_digit(c),
    ensures
        d as int == digit_value(c),
        d <= 9,
{
    (c as u32) - ('0' as u32)
}

/// Checks `cs[from..to]` against `is_small_decimal(_, max)`.
fn check_small_decimal(cs: &Vec<char>, from: usize, to: usize, max: u32) -> (r: bool)
    requires
        from <= to <= cs@.len(),
    ensures
        r == is_small_decimal(cs@.subrange(from as int, to as int), max as int),
{
    let ghost p = cs@.subrange(from as int, to as int);
    let len = to - from;
    if len < 1 || len > 3 {
        return false;
    }
    let mut i = from;
    while i < to
        invariant
            from <= i <= to <= cs@.len(),
            p == cs@.subrange(from as int, to as int),
            forall|k: int| 0 <= k < i - from ==> is_dec_digit(#[trigger] p[k]),
        decreases to - i,
    {
        if !(cs[i] >= '0' && cs[i] <= '9') {
            assert(!is_dec_digit(p[i - from]));
            return false;
        }
        i = i + 1;
    }
    if len > 1 && cs[from] == '0' {
        return false;
    }
    assert(is_dec_digit(p[0]));
    let d0 = digit(cs[from]);
    let value: u32 = if len == 1 {
        d0
    } else if len == 2 {
        assert(is_dec_digit(p[1]));
        d0 * 10 + digit(cs[from + 1])
    } else {
        assert(is_dec_digit(p[1]));
        assert(is_dec_digit(p[2]));
        d0 * 100 + digit(cs[from + 1]) * 10 + digit(cs[from + 2])
    };
    proof {
        assert(p.take(0).len() == 0);
        assert(dec_value(p.take(0)) == 0);
        assert(p.take(1).drop_last() =~= p.take(0));
        assert(p.take(1).last() == p[0]);
        assert(dec_value(p.take(1)) == digit_value(p[0]));
        if len >= 2 {
            assert(is_dec_digit(p[1]));
            assert(p.take(2).drop_last() =~= p.take(1));
            assert(p.take(2).last() == p[1]);
            assert(dec_value(p.take(2)) == digit_value(p[0]) * 10 + digit_value(p[1]));
        }
        if len == 3 {
            assert(is_dec_digit(p[2]));
            assert(p.take(3).drop_last() =~= p.take(2));
            assert(p.take(3).last() == p[2]);
        }
        assert(p.take(len as int) =~= p);
    }
    value <= max
}

fn check_hex_group(cs: &Vec<char>, from: usize, to: usize) -> (r: bool)
    requires
        from <= to <= cs@.len(),
    ensures
        r == is_hex_group(cs@.subrange(from as int, to as int)),
{
    let ghost p = cs@.subrange(from as int, to as int);
    let len = to - from;
    if len < 1 || len > 4 {
        return false;
    }
    let mut i = from;
    while i < to
        invariant
            from <= i <= to <= cs@.len(),
            p == cs@.subrange(from as int, to as int),
            forall|k: int| 0 <= k < i - from ==> is_hex_digit(#[trigger] p[k]),
        decreases to - i,
    {
        let c = cs[i];
        if !((c >= '0' && c <= '9') || (c >= 'a' && c <= 'f') || (c >= 'A' && c <= 'F')) {
            assert(!is_hex_digit(p[i - from]));
            return false;
        }
        i = i + 1;
    }
    true
}

fn check_part(cs: &Vec<char>, from: usize, to: usize, kind: PartKind) -> (r: bool)
    requires
        from <= to <= cs@.len(),
    ensures
        r == part_ok(kind, cs@.subrange(from as int, to as int)),
{
    match kind {
        PartKind::Octet => check_small_decimal(cs, from, to, 255),
        PartKind::HexGroup => check_hex_group(cs, from, to),
    }
}

/// Splits `cs[from..to]` at `sep`: returns the number of separators (one less than the number of
/// pieces) and whether all pieces are well formed.
fn scan_parts(cs: &Vec<char>, from: usize, to: usize, sep: char, kind: PartKind) -> (r: (
    usize,
    bool,
))
    requires
        from <= to <= cs@.len(),
    ensures
        r.0 + 1 == split(cs@.subrange(from as int, to as int), sep).len(),
        r.0 <= to - from,
        r.1 == all_parts_ok(split(cs@.subrange(from as int, to as int), sep), kind),
{
    let mut i = from;
    let mut start = from;
    let mut seps: usize = 0;
    let mut ok = true;
    while i < to
        invariant
            from <= start <= i <= to <= cs@.len(),
            seps <= i - from,
            split(cs@.subrange(from as int, i as int), sep).len() == seps + 1,
            split(cs@.subrange(from as int, i as int), sep).last() == cs@.subrange(
                start as int,
                i as int,
            ),
            ok == (forall|j: int|
                0 <= j < seps ==> part_ok(
                    kind,
                    #[trigger] split(cs@.subrange(from as int, i as int), sep)[j],
                )),
        decreases to - i,
    {
        let ghost t = cs@.subrange(from as int, i as int);
        let ghost t2 = cs@.subrange(from as int, i + 1);
        let ghost parts = split(t, sep);
        let ghost count = seps + 1;
        assert(t2.drop_last() =~= t);
        assert(t2.last() == cs@[i as int]);
        if cs[i] == sep {
            let p = check_part(cs, start, i, kind);
            let ghost new_parts = split(t2, sep);
            assert(new_parts == parts.push(Seq::<char>::empty()));
            proof {
                assert(parts[count - 1] == cs@.subrange(start as int, i as int));
                if ok && p {
                    assert forall|j: int| 0 <= j < count implies part_ok(
                        kind,
                        #[trigger] new_parts[j],
                    ) by {
                        assert(new_parts[j] == parts[j]);
                    }
                }
                if !(ok && p) {
                    if !ok {
                        let j = choose|j: int|
                            0 <= j < count - 1 && !part_ok(kind, #[trigger] parts[j]);
                        assert(new_parts[j] == parts[j]);
                    } else {
                        assert(new_parts[count - 1] == parts[count - 1]);
                    }
                }
            }
            ok = ok && p;
            seps = seps + 1;
            start = i + 1;
            assert(cs@.subrange(start as int, i + 1) =~= Seq::<char>::empty());
        } else {
            let ghost new_parts = split(t2, sep);
            assert(new_parts == parts.update(parts.len() - 1, parts.last().push(cs@[i as int])));
            assert(cs@.subrange(start as int, i + 1) =~= cs@.subrange(start as int, i as int).push(
                cs@[i as int],
            ));
            proof {
                assert forall|j: int| 0 <= j < count - 1 implies new_parts[j] == parts[j] by {}
            }
        }
        i = i + 1;
    }
    let last = check_part(cs, start, to, kind);
    proof {
        let parts = split(cs@.subrange(from as int, to as int), sep);
        assert(parts[seps as int] == cs@.subrange(start as int, to as int));
        if !last {
            assert(!part_ok(kind, parts[seps as int]));
        }
    }
    (seps, ok && last)
}

fn find_char(cs: &Vec<char>, c: char) -> (r: Option<usize>)
    ensures
        match r {
            None => index_of(cs@, c, 0) is None,
            Some(k) => index_of(cs@, c, 0) == Some(k as int) && k < cs@.len(),
        },
{
    let mut i: usize = 0;
    while i < cs.len()
        invariant
            i <= cs@.len(),
            index_of(cs@, c, 0) == index_of(cs@, c, i as int),
        decreases cs@.len() - i,
    {
        if cs[i] == c {
            return Some(i);
        }
        i = i + 1;
    }
    None
}

fn find_double_colon(cs: &Vec<char>) -> (r: Option<usize>)
    ensures
        match r {
            None => double_colon(cs@, 0) is None,
            Some(k) => double_colon(cs@, 0) == Some(k as int) && k + 2 <= cs@.len(),
        },
{
    let mut i: usize = 0;
    while cs.len() > 1 && i < cs.len() - 1
        invariant
            i <= cs@.len(),
            double_colon(cs@, 0) == double_colon(cs@, i as int),
        decreases cs@.len() - i,
    {
        if cs[i] == ':' && cs[i + 1] == ':' {
            return Some(i);
        }
        i = i + 1;
    }
    None
}

fn check_ipv4(cs: &Vec<char>, from: usize, to: usize) -> (r: bool)
    requires
        from <= to <= cs@.len(),
    ensures
        r == is_ipv4_address(cs@.subrange(from as int, to as int)),
{
    let (seps, ok) = scan_parts(cs, from, to, '.', PartKind::Octet);
    seps == 3 && ok
}

/// Checks a run of hex groups (possibly empty) and returns its group count when it is well formed.
fn check_hex_run(cs: &Vec<char>, from: usize, to: usize) -> (r: Option<usize>)
    requires
        from <= to <= cs@.len(),
    ensures
        match r {
            None => !hex_groups_ok(cs@.subrange(from as int, to as int)),
            Some(n) => hex_groups_ok(cs@.subrange(from as int, to as int)) && n as int
                == hex_group_count(cs@.subrange(from as int, to as int)) && n <= to - from,
        },
{
    if from == to {
        return Some(0);
    }
    let (seps, ok) = scan_parts(cs, from, to, ':', PartKind::HexGroup);
    if ok {
        proof {
            let s = cs@.subrange(from as int, to as int);
            let parts = split(s, ':');
            // each group holds at least one character, so there are no more groups than characters
            lemma_split_count_bound(s, ':');
        }
        Some(seps + 1)
    } else {
        None
    }
}

/// Pieces are separated by one character each, so there are at most `len + 1` of them, and at
/// most `len` when none is empty.
pub proof fn lemma_split_count_bound(s: Seq<char>, sep: char)
    ensures
        split(s, sep).len() <= s.len() + 1,
        s.len() > 0 && (forall|j: int|
            0 <= j < split(s, sep).len() ==> (#[trigger] split(s, sep)[j]).len() >= 1) ==> split(
            s,
            sep,
        ).len() <= s.len(),
    decreases s.len(),
{
    lemma_split_nonempty(s, sep);
    if s.len() > 0 {
        let t = s.drop_last();
        lemma_split_count_bound(t, sep);
        lemma_split_nonempty(t, sep);
        let pt = split(t, sep);
        let ps = split(s, sep);
        if s.last() == sep {
            // the new last piece is empty
            assert(ps[ps.len() - 1].len() == 0);
        } else if t.len() > 0 && (forall|j: int| 0 <= j < ps.len() ==> (#[trigger] ps[j]).len() >= 1) {
            if exists|j: int| 0 <= j < pt.len() && (#[trigger] pt[j]).len() == 0 {
                let j = choose|j: int| 0 <= j < pt.len() && (#[trigger] pt[j]).len() == 0;
                if j < pt.len() - 1 {
                    assert(ps[j] == pt[j]);
                }
                assert(pt.len() <= t.len() + 1);
            } else {
                assert forall|j: int| 0 <= j < pt.len() implies (#[trigger] pt[j]).len() >= 1 by {}
            }
        }
    }
}

fn check_ipv6_hex(cs: &Vec<char>, from: usize, to: usize) -> (r: bool)
    requires
        from <= to <= cs@.len(),
    ensures
        r == is_ipv6_hex_address(cs@.subrange(from as int, to as int)),
{
    let ghost s = cs@.subrange(from as int, to as int);
    let sub = copy_range(cs, from, to);
    match find_double_colon(&sub) {
        None => {
            let (seps, ok) = scan_parts(&sub, 0, sub.len(), ':', PartKind::HexGroup);
            assert(sub@.subrange(0, sub@.len() as int) =~= s);
            seps == 7 && ok
        },
        Some(k) => {
            assert(sub@.subrange(0, k as int) =~= s.take(k as int));
            assert(sub@.subrange(k + 2, sub@.len() as int) =~= s.skip(k + 2));
            let head = check_hex_run(&sub, 0, k);
            let tail = check_hex_run(&sub, k + 2, sub.len());
            match (head, tail) {
                (Some(a), Some(b)) => a + b <= 7,
                _ => false,
            }
        },
    }
}

fn copy_range(cs: &Vec<char>, from: usize, to: usize) -> (r: Vec<char>)
    requires
        from <= to <= cs@.len(),
    ensures
        r@ == cs@.subrange(from as int, to as int),
{
    let mut out: Vec<char> = Vec::new();
    let mut i = from;
    while i < to
        invariant
            from <= i <= to <= cs@.len(),
            out@ == cs@.subrange(from as int, i as int),
        decreases to - i,
    {
        out.push(cs[i]);
        i = i + 1;
        assert(out@ =~= cs@.subrange(from as int, i as int));
    }
    out
}

fn find_last(cs: &Vec<char>, c: char) -> (r: Option<usize>)
    ensures
        match r {
            None => last_index_of(cs@, c) is None,
            Some(j) => last_index_of(cs@, c) == Some(j as int) && j < cs@.len(),
        },
{
    let mut i = cs.len();
    assert(cs@.take(i as int) =~= cs@);
    while i > 0
        invariant
            i <= cs@.len(),
            last_index_of(cs@, c) == last_index_of(cs@.take(i as int), c),
        decreases i,
    {
        assert(cs@.take(i as int).drop_last() =~= cs@.take(i - 1));
        if cs[i - 1] == c {
            return Some(i - 1);
        }
        i = i - 1;
    }
    None
}

fn check_ipv6(cs: &Vec<char>, from: usize, to: usize) -> (r: bool)
    requires
        from <= to <= cs@.len(),
    ensures
        r == is_ipv6_address(cs@.subrange(from as int, to as int)),
{
    let sub = copy_range(cs, from, to);
    let n = sub.len();
    match find_last(&sub, ':') {
        Some(j) => {
            let tail = copy_range(&sub, j + 1, n);
            assert(tail@ =~= sub@.skip(j + 1));
            if find_char(&tail, '.').is_some() {
                let mut head = copy_range(&sub, 0, j + 1);
                head.push('0');
                head.push(':');
                head.push('0');
                assert(head@ =~= sub@.take(j + 1) + seq!['0', ':', '0']);
                assert(tail@.subrange(0, tail@.len() as int) =~= tail@);
                assert(head@.subrange(0, head@.len() as int) =~= head@);
                let tail_len = tail.len();
                let head_len = head.len();
                check_ipv4(&tail, 0, tail_len) && check_ipv6_hex(&head, 0, head_len)
            } else {
                assert(sub@.subrange(0, n as int) =~= sub@);
                check_ipv6_hex(&sub, 0, n)
            }
        },
        None => {
            assert(sub@.subrange(0, n as int) =~= sub@);
            check_ipv6_hex(&sub, 0, n)
        },
    }
}

fn check_block(cs: &Vec<char>, v6: bool) -> (r: bool)
    ensures
        r == is_block(cs@, v6),
{
    let max_prefix: u32 = if v6 {
        128
    } else {
        32
    };
    let n = cs.len();
    match find_char(cs, '/') {
        None => {
            assert(cs@.subrange(0, cs@.len() as int) =~= cs@);
            if v6 {
                check_ipv6(cs, 0, cs.len())
            } else {
                check_ipv4(cs, 0, cs.len())
            }
        },
        Some(p) => {
            assert(cs@.subrange(0, p as int) =~= cs@.take(p as int));
            assert(cs@.subrange(p + 1, cs@.len() as int) =~= cs@.skip(p + 1));
            let addr = if v6 {
                check_ipv6(cs, 0, p)
            } else {
                check_ipv4(cs, 0, p)
            };
            addr && check_small_decimal(cs, p + 1, cs.len(), max_prefix)
        },
    }
}

/// Tells which family an address or CIDR block (`10.0.0.0/16`, `fd00::/8`) belongs to, or
/// `None` when it is neither a valid IPv4 nor a valid IPv6 address or block.
pub fn ip_version_of(s: &str) -> (r: Option<IpVersion>)
    ensures
        r == ip_version(s@),
{
    let cs = to_chars(s);
    if check_block(&cs, false) {
        Some(IpVersion::V4)
    } else if check_block(&cs, true) {
        Some(IpVersion::V6)
    } else {
        None
    }
}

} // verus!

verus! {

// ---------------------------------------------------------------------------------------------
// Classification of a set of CIDR blocks
// ---------------------------------------------------------------------------------------------

/// The addressing a cluster network uses: IPv4 only, IPv6 only, or both. Each variant keeps the
/// blocks it was built from, in the order given.
#[derive(Debug, Clone)]
pub enum ClusterIPFamily {
    IPv4IPFamily(Vec<String>),
    IPv6IPFamily(Vec<String>),
    DualStackIPFamily(Vec<String>),
}

#[derive(Clone, Copy, PartialEq, Eq, Structural, Debug)]
pub enum FamilyKind {
    IPv4,
    IPv6,
    DualStack,
}

pub open spec fn all_of_version(cs: Seq<Seq<char>>, v: IpVersion) -> bool {
    forall|i: int| 0 <= i < cs.len() ==> ip_version(#[trigger] cs[i]) == Some(v)
}

pub open spec fn all_valid(cs: Seq<Seq<char>>) -> bool {
    forall|i: int| 0 <= i < cs.len() ==> ip_version(#[trigger] cs[i]) is Some
}

/// The family of a list of valid blocks; an empty list counts as IPv4.
pub open spec fn family_kind(cs: Seq<Seq<char>>) -> FamilyKind {
    if all_of_version(cs, IpVersion::V4) {
        FamilyKind::IPv4
    } else if all_of_version(cs, IpVersion::V6) {
        FamilyKind::IPv6
    } else {
        FamilyKind::DualStack
    }
}

/// `cs[i]` is the first block of `cs` that is malformed.
pub open spec fn is_first_invalid(cs: Seq<Seq<char>>, i: int) -> bool {
    &&& 0 <= i < cs.len()
    &&& ip_version(cs[i]) is None
    &&& forall|j: int| 0 <= j < i ==> ip_version(#[trigger] cs[j]) is Some
}

/// `r` is the outcome of classifying `cs`: the family of all the blocks, or an
/// `IPFamilyUnknown` error that names the first malformed one.
pub open spec fn classified(cs: Seq<Seq<char>>, r: Result<ClusterIPFamily, Error>) -> bool {
    match r {
        Ok(f) => {
            &&& all_valid(cs)
            &&& f.kind() == family_kind(cs)
            &&& f.addresses() == cs
        },
        Err(e) => exists|i: int|
            is_first_invalid(cs, i) && match e {
                Error::IPFamilyUnknown(s) => s@ == cs[i],
                _ => false,
            },
    }
}

impl ClusterIPFamily {
    pub open spec fn kind(&self) -> FamilyKind {
        match self {
            ClusterIPFamily::IPv4IPFamily(_) => FamilyKind::IPv4,
            ClusterIPFamily::IPv6IPFamily(_) => FamilyKind::IPv6,
            ClusterIPFamily::DualStackIPFamily(_) => FamilyKind::DualStack,
        }
    }

    pub open spec fn addresses(&self) -> Seq<Seq<char>> {
        match self {
            ClusterIPFamily::IPv4IPFamily(v) => v.deep_view(),
            ClusterIPFamily::IPv6IPFamily(v) => v.deep_view(),
            ClusterIPFamily::DualStackIPFamily(v) => v.deep_view(),
        }
    }

    /// Classifies CIDR blocks. Fails on the first block that is neither IPv4 nor IPv6, naming it.
    pub fn new(cidr_strings: Vec<String>) -> (r: Result<ClusterIPFamily, Error>)
        ensures
            classified(cidr_strings.deep_view(), r),
    {
        let ghost cs = cidr_strings.deep_view();
        let mut versions: Vec<IpVersion> = Vec::new();
        let mut i: usize = 0;
        while i < cidr_strings.len()
            invariant
                i <= cidr_strings@.len(),
                cs == cidr_strings.deep_view(),
                versions@.len() == i,
                forall|j: int| 0 <= j < i ==> ip_version(#[trigger] cs[j]) == Some(versions@[j]),
            decreases cidr_strings@.len() - i,
        {
            match ip_version_of(cidr_strings[i].as_str()) {
                Some(v) => versions.push(v),
                None => {
                    let bad = cidr_strings[i].clone();
                    assert(is_first_invalid(cs, i as int));
                    return Err(Error::IPFamilyUnknown(bad));
                },
            }
            i = i + 1;
        }
        Ok(ClusterIPFamily::group(cidr_strings, &versions))
    }

    /// Puts blocks whose families are known into the variant that covers them all.
    fn group(cidrs: Vec<String>, versions: &Vec<IpVersion>) -> (r: ClusterIPFamily)
        requires
            versions@.len() == cidrs@.len(),
            forall|j: int|
                0 <= j < cidrs@.len() ==> ip_version(#[trigger] cidrs.deep_view()[j]) == Some(
                    versions@[j],
                ),
        ensures
            all_valid(cidrs.deep_view()),
            r.kind() == family_kind(cidrs.deep_view()),
            r.addresses() == cidrs.deep_view(),
    {
        let ghost cs = cidrs.deep_view();
        let mut all_v4 = true;
        let mut all_v6 = true;
        let mut i: usize = 0;
        while i < versions.len()
            invariant
                i <= versions@.len(),
                versions@.len() == cs.len(),
                forall|j: int| 0 <= j < cs.len() ==> ip_version(#[trigger] cs[j]) == Some(versions@[j]),
                all_v4 == (forall|j: int| 0 <= j < i ==> versions@[j] == IpVersion::V4),
                all_v6 == (forall|j: int| 0 <= j < i ==> versions@[j] == IpVersion::V6),
            decreases versions@.len() - i,
        {
            all_v4 = all_v4 && versions[i] == IpVersion::V4;
            all_v6 = all_v6 && versions[i] == IpVersion::V6;
            i = i + 1;
        }
        assert(all_valid(cs)) by {
            assert forall|j: int| 0 <= j < cs.len() implies ip_version(#[trigger] cs[j]) is Some by {
                assert(ip_version(cs[j]) == Some(versions@[j]));
            }
        }
        if all_v4 {
            assert(all_of_version(cs, IpVersion::V4)) by {
                assert forall|j: int| 0 <= j < cs.len() implies ip_version(#[trigger] cs[j]) == Some(IpVersion::V4) by {
                    assert(ip_version(cs[j]) == Some(versions@[j]));
                }
            }
            ClusterIPFamily::IPv4IPFamily(cidrs)
        } else if all_v6 {
            assert(!all_of_version(cs, IpVersion::V4)) by {
                let j = choose|j: int| 0 <= j < cs.len() && versions@[j] != IpVersion::V4;
                assert(ip_version(cs[j]) == Some(versions@[j]));
            }
            assert(all_of_version(cs, IpVersion::V6)) by {
                assert forall|j: int| 0 <= j < cs.len() implies ip_version(#[trigger] cs[j]) == Some(IpVersion::V6) by {
                    assert(ip_version(cs[j]) == Some(versions@[j]));
                }
            }
            ClusterIPFamily::IPv6IPFamily(cidrs)
        } else {
            assert(!all_of_version(cs, IpVersion::V4)) by {
                let j = choose|j: int| 0 <= j < cs.len() && versions@[j] != IpVersion::V4;
                assert(ip_version(cs[j]) == Some(versions@[j]));
            }
            assert(!all_of_version(cs, IpVersion::V6)) by {
                let j = choose|j: int| 0 <= j < cs.len() && versions@[j] != IpVersion::V6;
                assert(ip_version(cs[j]) == Some(versions@[j]));
            }
            ClusterIPFamily::DualStackIPFamily(cidrs)
        }
    }
}

impl Default for ClusterIPFamily {
    /// An empty IPv4 family, the neutral choice when a cluster declares no blocks.
    fn default() -> (r: Self)
        ensures
            r.kind() == FamilyKind::IPv4,
            r.addresses().len() == 0,
    {
        ClusterIPFamily::IPv4IPFamily(Vec::new())
    }
}

} // verus!

verus! {

/// Classification by family: blocks that are all IPv4 (an empty list among them) give the IPv4
/// variant, blocks that are all IPv6 give the IPv6 variant, and valid blocks of both families
/// give the dual-stack variant; each holds exactly the given blocks, in their order.
pub proof fn lemma_classified_families(cs: Seq<Seq<char>>, r: Result<ClusterIPFamily, Error>)
    requires
        classified(cs, r),
    ensures
        all_of_version(cs, IpVersion::V4) ==> r is Ok && r->Ok_0 is IPv4IPFamily
            && r->Ok_0.addresses() == cs,
        cs.len() > 0 && all_of_version(cs, IpVersion::V6) ==> r is Ok && r->Ok_0 is IPv6IPFamily
            && r->Ok_0.addresses() == cs,
        all_valid(cs) && !all_of_version(cs, IpVersion::V4) && !all_of_version(cs, IpVersion::V6)
            ==> r is Ok && r->Ok_0 is DualStackIPFamily && r->Ok_0.addresses() == cs,
        cs.len() == 0 ==> r is Ok && r->Ok_0 is IPv4IPFamily && r->Ok_0.addresses().len() == 0,
        r is Ok ==> (r->Ok_0 is IPv4IPFamily <==> all_of_version(cs, IpVersion::V4)),
        r is Ok ==> (r->Ok_0 is IPv6IPFamily <==> cs.len() > 0 && all_of_version(
            cs,
            IpVersion::V6,
        )),
        r is Ok ==> (r->Ok_0 is DualStackIPFamily <==> !all_of_version(cs, IpVersion::V4)
            && !all_of_version(cs, IpVersion::V6)),
{
    if r is Ok && !all_of_version(cs, IpVersion::V4) {
        // a list that is not all IPv4 has an element
        assert(cs.len() > 0);
    }
    if all_of_version(cs, IpVersion::V4) || all_of_version(cs, IpVersion::V6) {
        if r is Err {
            let i = choose|i: int|
                is_first_invalid(cs, i) && match r->Err_0 {
                    Error::IPFamilyUnknown(s) => s@ == cs[i],
                    _ => false,
                };
            assert(ip_version(cs[i]) is Some);
        }
    }
    if cs.len() > 0 && all_of_version(cs, IpVersion::V6) {
        assert(ip_version(cs[0]) == Some(IpVersion::V6));
        assert(!all_of_version(cs, IpVersion::V4));
    }
}

/// A malformed block fails the whole classification, with no partial result: the error is
/// `IPFamilyUnknown` and names the first malformed block.
pub proof fn lemma_classified_rejects(cs: Seq<Seq<char>>, r: Result<ClusterIPFamily, Error>, k: int)
    requires
        classified(cs, r),
        0 <= k < cs.len(),
        ip_version(cs[k]) is None,
    ensures
        r is Err,
        r->Err_0 is IPFamilyUnknown,
        exists|i: int| 0 <= i <= k && is_first_invalid(cs, i) && r->Err_0->IPFamilyUnknown_0@ == cs[i],
{
    if r is Ok {
        assert(ip_version(cs[k]) is Some);
    }
    let i = choose|i: int|
        is_first_invalid(cs, i) && match r->Err_0 {
            Error::IPFamilyUnknown(s) => s@ == cs[i],
            _ => false,
        };
    if i > k {
        assert(ip_version(cs[k]) is Some);
    }
}

} // verus!
