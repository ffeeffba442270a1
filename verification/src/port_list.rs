//! Port lists typed in the settings: comma-separated items, each a port
//! (`443`) or an inclusive range of ports (`1-1000`), as in `80,443,22` or
//! `1-1000, 8080`.

use vstd::prelude::*;
use crate::text::{parse_unsigned, parse_unsigned_max, trim, trimmed};

verus! {

/// Whether `text` is written as a port list rather than a single port: it
/// holds a comma or a dash.
pub open spec fn is_list_form(text: Seq<char>) -> bool {
    text.contains(',') || text.contains('-')
}

/// `text[a..b]` is an item of the list: it holds no comma and is bounded by
/// commas or the ends of the text.
pub open spec fn is_item_span(text: Seq<char>, a: int, b: int) -> bool {
    &&& 0 <= a <= b <= text.len()
    &&& (a == 0 || text[a - 1] == ',')
    &&& (b == text.len() || text[b] == ',')
    &&& forall|k: int| a <= k < b ==> text[k] != ','
}

/// The position of the first dash of `item`.
pub open spec fn first_dash(item: Seq<char>) -> int {
    choose|i: int| 0 <= i < item.len() && item[i] == '-' && forall|j: int| 0 <= j < i ==> item[j] != '-'
}

/// The lowest and highest port an item names, surrounding whitespace aside:
/// `n` names `n..=n`, `lo-hi` names `lo..=hi` (with `lo <= hi`); anything
/// else names nothing.
pub open spec fn item_bounds(raw: Seq<char>) -> Option<(nat, nat)> {
    let item = trimmed(raw);
    if item.contains('-') {
        let d = first_dash(item);
        match (
            parse_unsigned(trimmed(item.take(d)), u16::MAX as nat),
            parse_unsigned(trimmed(item.skip(d + 1)), u16::MAX as nat),
        ) {
            (Some(lo), Some(hi)) => if lo <= hi {
                Some((lo, hi))
            } else {
                None
            },
            _ => None,
        }
    } else {
        match parse_unsigned(item, u16::MAX as nat) {
            Some(n) => Some((n, n)),
            None => None,
        }
    }
}

/// `text` is a well-formed port list: written as a list, and every item
/// names a port or a range.
pub open spec fn list_valid(text: Seq<char>) -> bool {
    &&& is_list_form(text)
    &&& forall|a: int, b: int| #[trigger] is_item_span(text, a, b) ==> item_bounds(text.subrange(a, b)) is Some
}

/// Some item of the list among those starting before `before` names port `p`.
pub open spec fn covered_before(text: Seq<char>, before: int, p: int) -> bool {
    exists|a: int, b: int|
        #[trigger] is_item_span(text, a, b) && a < before && (item_bounds(text.subrange(a, b)) matches Some(
            bounds,
        ) && bounds.0 <= p <= bounds.1)
}

/// Some item of the list names port `p`.
pub open spec fn list_covers(text: Seq<char>, p: int) -> bool {
    covered_before(text, text.len() + 1int, p)
}

/// The ports are in strictly increasing order, so none comes twice.
pub open spec fn strictly_increasing(ports: Seq<u16>) -> bool {
    forall|i: int, j: int| 0 <= i < j < ports.len() ==> (#[trigger] ports[i]) < (#[trigger] ports[j])
}

/// The range of ports `item` names, if any.
fn item_range(item: &str) -> (r: Option<(u16, u16)>)
    ensures
        r matches Some(b) ==> item_bounds(item@) == Some((b.0 as nat, b.1 as nat)),
        r is None ==> item_bounds(item@) is None,
{
    let t = trim(item);
    let ts = t.as_str();
    let n = ts.unicode_len();
    let mut d: usize = 0;
    while d < n && ts.get_char(d) != '-'
        invariant
            d <= n,
            n == t@.len(),
            ts@ == t@,
            forall|j: int| 0 <= j < d ==> t@[j] != '-',
        decreases n - d,
    {
        d = d + 1;
    }
    if d == n {
        assert(!t@.contains('-'));
        match parse_unsigned_max(ts, u16::MAX as u64) {
            Some(v) => Some((v as u16, v as u16)),
            None => None,
        }
    } else {
        let ghost tv = t@;
        assert(tv.contains('-'));
        assert(first_dash(tv) == d) by {
            let c = first_dash(tv);
            assert(0 <= c < tv.len() && tv[c] == '-' && forall|j: int| 0 <= j < c ==> tv[j] != '-');
            if c < d {
            } else if c > d {
                assert(tv[d as int] == '-');
            }
        }
        let lo_text = trim(ts.substring_char(0, d));
        let hi_text = trim(ts.substring_char(d + 1, n));
        assert(tv.subrange(0, d as int) =~= tv.take(d as int));
        assert(tv.subrange(d + 1, n as int) =~= tv.skip(d + 1));
        match (
            parse_unsigned_max(lo_text.as_str(), u16::MAX as u64),
            parse_unsigned_max(hi_text.as_str(), u16::MAX as u64),
        ) {
            (Some(lo), Some(hi)) => if lo <= hi {
                Some((lo as u16, hi as u16))
            } else {
                None
            },
            _ => None,
        }
    }
}

/// Marks in `marks` the ports named by the item `text[a..b]`; returns
/// whether the item names any.
fn mark_item(marks: &mut Vec<bool>, text: &str, a: usize, b: usize) -> (named: bool)
    requires
        old(marks)@.len() == 65536,
        a <= b <= text@.len(),
    ensures
        final(marks)@.len() == 65536,
        named == item_bounds(text@.subrange(a as int, b as int)) is Some,
        forall|p: int|
            0 <= p < 65536 ==> final(marks)@[p] == (old(marks)@[p] || (item_bounds(
                text@.subrange(a as int, b as int),
            ) matches Some(bounds) && bounds.0 <= p <= bounds.1)),
{
    match item_range(text.substring_char(a, b)) {
        None => false,
        Some((lo, hi)) => {
            let mut q: u32 = lo as u32;
            while q <= hi as u32
                invariant
                    lo <= q <= hi as u32 + 1,
                    hi < 65536,
                    marks@.len() == 65536,
                    forall|p: int|
                        0 <= p < 65536 ==> marks@[p] == (old(marks)@[p] || (lo <= p < q)),
                decreases hi as u32 + 1 - q,
            {
                marks.set(q as usize, true);
                q = q + 1;
            }
            true
        },
    }
}

/// Where the items after position `s` are when `text[s..i]` is an item: it is
/// the only item that starts at `s` or later and before `i + 1`.
proof fn lemma_next_item(text: Seq<char>, s: int, i: int)
    requires
        0 <= s <= i <= text.len(),
        s == 0 || text[s - 1] == ',',
        i == text.len() || text[i] == ',',
        forall|k: int| s <= k < i ==> text[k] != ',',
    ensures
        is_item_span(text, s, i),
        forall|a: int, b: int|
            #[trigger] is_item_span(text, a, b) && s <= a < i + 1 ==> a == s && b == i,
{
    assert forall|a: int, b: int| #[trigger] is_item_span(text, a, b) && s <= a < i + 1 implies a
        == s && b == i by {
        if a > s {
            assert(text[a - 1] == ',');
        }
        if b < i {
            assert(text[b] == ',');
        }
        if b > i {
            assert(text[i] != ',');
        }
    }
}

/// The ports a port list names, in increasing order, or `None` when `text`
/// is not a well-formed port list.
pub fn parse_port_list(text: &str) -> (r: Option<Vec<u16>>)
    ensures
        r is Some <==> list_valid(text@),
        r matches Some(v) ==> {
            &&& strictly_increasing(v@)
            &&& v@.len() > 0
            &&& forall|p: u16| #[trigger] v@.contains(p) <==> list_covers(text@, p as int)
            &&& forall|p: u16| !list_covers(text@, p as int) ==> v@.len() <= u16::MAX
        },
{
    let n = text.unicode_len();
    let mut listed = false;
    let mut k: usize = 0;
    while k < n
        invariant
            n == text@.len(),
            k <= n,
            listed == (exists|j: int| 0 <= j < k && (text@[j] == ',' || text@[j] == '-')),
        decreases n - k,
    {
        let c = text.get_char(k);
        if c == ',' || c == '-' {
            listed = true;
        }
        k = k + 1;
    }
    if !listed {
        assert forall|c: char| c == ',' || c == '-' implies !text@.contains(c) by {
            if text@.contains(c) {
                let j = choose|j: int| 0 <= j < text@.len() && text@[j] == c;
            }
        }
        return None;
    }
    assert(is_list_form(text@)) by {
        let j = choose|j: int| 0 <= j < n && (text@[j] == ',' || text@[j] == '-');
        assert(text@[j] == ',' ==> text@.contains(','));
        assert(text@[j] == '-' ==> text@.contains('-'));
    }
    let mut marks: Vec<bool> = Vec::new();
    while marks.len() < 65536
        invariant
            marks@.len() <= 65536,
            forall|p: int| 0 <= p < marks@.len() ==> !marks@[p],
        decreases 65536 - marks@.len(),
    {
        marks.push(false);
    }
    let mut start: usize = 0;
    for i in 0..n
        invariant
            n == text@.len(),
            start <= i,
            start == 0 || text@[start - 1] == ',',
            forall|k: int| start <= k < i ==> text@[k] != ',',
            marks@.len() == 65536,
            forall|a: int, b: int|
                #[trigger] is_item_span(text@, a, b) && a < start ==> item_bounds(
                    text@.subrange(a, b),
                ) is Some,
            forall|p: int| 0 <= p < 65536 ==> marks@[p] == covered_before(text@, start as int, p),
    {
        if text.get_char(i) == ',' {
            let ghost old_marks = marks@;
            let named = mark_item(&mut marks, text, start, i);
            proof {
                lemma_next_item(text@, start as int, i as int);
            }
            if !named {
                assert(is_item_span(text@, start as int, i as int));
                return None;
            }
            proof {
                assert forall|p: int| 0 <= p < 65536 implies marks@[p] == covered_before(
                    text@,
                    i + 1,
                    p,
                ) by {
                    if covered_before(text@, i + 1, p) {
                        let (a, b) = choose|a: int, b: int|
                            #[trigger] is_item_span(text@, a, b) && a < i + 1 && (item_bounds(
                                text@.subrange(a, b),
                            ) matches Some(bounds) && bounds.0 <= p <= bounds.1);
                        if a >= start {
                            assert(a == start && b == i);
                        }
                    }
                    if marks@[p] && !old_marks[p] {
                        assert(is_item_span(text@, start as int, i as int));
                    }
                }
            }
            start = i + 1;
        }
    }
    let ghost old_marks = marks@;
    let named = mark_item(&mut marks, text, start, n);
    proof {
        lemma_next_item(text@, start as int, n as int);
    }
    if !named {
        assert(is_item_span(text@, start as int, n as int));
        return None;
    }
    let ghost bounds = item_bounds(text@.subrange(start as int, n as int)).unwrap();
    proof {
        assert forall|p: int| 0 <= p < 65536 implies marks@[p] == list_covers(text@, p) by {
            if list_covers(text@, p) {
                let (a, b) = choose|a: int, b: int|
                    #[trigger] is_item_span(text@, a, b) && a < n + 1 && (item_bounds(
                        text@.subrange(a, b),
                    ) matches Some(bounds) && bounds.0 <= p <= bounds.1);
                if a >= start {
                    assert(a == start && b == n);
                }
            }
            if marks@[p] && !old_marks[p] {
                assert(is_item_span(text@, start as int, n as int));
            }
        }
        assert forall|a: int, b: int| #[trigger] is_item_span(text@, a, b) implies item_bounds(
            text@.subrange(a, b),
        ) is Some by {
            if a >= start {
                assert(a == start && b == n);
            }
        }
        assert(marks@[bounds.0 as int]);
    }
    let mut ports: Vec<u16> = Vec::new();
    let mut skipped: u32 = 0;
    let mut q: u32 = 0;
    while q < 65536
        invariant
            q <= 65536,
            marks@.len() == 65536,
            ports@.len() + skipped == q,
            strictly_increasing(ports@),
            forall|i: int| 0 <= i < ports@.len() ==> ports@[i] < q,
            forall|p: u16| p < q ==> (#[trigger] ports@.contains(p) <==> marks@[p as int]),
            forall|p: u16| p < q && !marks@[p as int] ==> skipped >= 1,
        decreases 65536 - q,
    {
        if marks[q as usize] {
            let ghost before = ports@;
            ports.push(q as u16);
            assert forall|p: u16| p < q + 1 implies (#[trigger] ports@.contains(p) <==> marks@[p as int]) by {
                if p < q {
                    if ports@.contains(p) {
                        let i = choose|i: int| 0 <= i < ports@.len() && ports@[i] == p;
                        assert(before[i] == p);
                    }
                    if before.contains(p) {
                        let i = choose|i: int| 0 <= i < before.len() && before[i] == p;
                        assert(ports@[i] == p);
                    }
                } else {
                    assert(ports@[ports@.len() - 1] == p);
                }
            }
        } else {
            skipped = skipped + 1;
            assert forall|p: u16| p < q + 1 implies (#[trigger] ports@.contains(p) <==> marks@[p as int]) by {
                if p == q && ports@.contains(p) {
                    let i = choose|i: int| 0 <= i < ports@.len() && ports@[i] == p;
                }
            }
        }
        q = q + 1;
    }
    assert(ports@.contains(bounds.0 as u16));
    Some(ports)
}

} // verus!
