//! How scan results are listed: ordered by port, with a short banner.

use vstd::prelude::*;
use crate::scan::ScanResult;
use crate::text::{decimal, push_decimal, push_replacing, push_str_chars, replace_char, trim, trimmed};
use vstd::utf8::{decode_utf8, is_char_boundary};
use vstd::string::StringSliceAdditionalSpecFns;

verus! {

/// The results for port `p`.
pub open spec fn on_port(p: u16) -> spec_fn(ScanResult) -> bool {
    |r: ScanResult| r.port == p
}

/// The results are in increasing order of port.
pub open spec fn sorted_by_port(s: Seq<ScanResult>) -> bool {
    forall|i: int, j: int| 0 <= i < j < s.len() ==> (#[trigger] s[i]).port <= (#[trigger] s[j]).port
}

/// `sorted` is `results` stably sorted by port: in increasing order of port,
/// and, port by port, the same results in the same order.
pub open spec fn is_stable_port_sort(sorted: Seq<ScanResult>, results: Seq<ScanResult>) -> bool {
    &&& sorted_by_port(sorted)
    &&& forall|p: u16| #[trigger] sorted.filter(on_port(p)) == results.filter(on_port(p))
}

proof fn lemma_filter_push(s: Seq<ScanResult>, x: ScanResult, p: u16)
    ensures
        s.push(x).filter(on_port(p)) == (if x.port == p {
            s.filter(on_port(p)).push(x)
        } else {
            s.filter(on_port(p))
        }),
{
    reveal(Seq::filter);
    assert(s.push(x).drop_last() =~= s);
}

proof fn lemma_filter_none(s: Seq<ScanResult>, p: u16)
    requires
        forall|i: int| 0 <= i < s.len() ==> (#[trigger] s[i]).port != p,
    ensures
        s.filter(on_port(p)) == Seq::<ScanResult>::empty(),
    decreases s.len(),
{
    reveal(Seq::filter);
    if s.len() > 0 {
        lemma_filter_none(s.drop_last(), p);
    }
}

/// Inserting `x` after every result of a port no larger than its own, and
/// before every larger one, keeps the order and adds `x` last among the
/// results of its port.
proof fn lemma_insert_sorted(s: Seq<ScanResult>, pos: int, x: ScanResult, p: u16)
    requires
        sorted_by_port(s),
        0 <= pos <= s.len(),
        forall|i: int| 0 <= i < pos ==> (#[trigger] s[i]).port <= x.port,
        forall|i: int| pos <= i < s.len() ==> (#[trigger] s[i]).port > x.port,
    ensures
        sorted_by_port(s.insert(pos, x)),
        s.insert(pos, x).filter(on_port(p)) == (if x.port == p {
            s.filter(on_port(p)).push(x)
        } else {
            s.filter(on_port(p))
        }),
{
    let t = s.insert(pos, x);
    let a = s.take(pos);
    let b = s.skip(pos);
    assert(t =~= a.push(x) + b);
    assert(s =~= a + b);
    Seq::filter_distributes_over_add(a.push(x), b, on_port(p));
    Seq::filter_distributes_over_add(a, b, on_port(p));
    lemma_filter_push(a, x, p);
    if x.port == p {
        lemma_filter_none(b, p);
        assert(b.filter(on_port(p)) =~= Seq::<ScanResult>::empty());
        assert(s.filter(on_port(p)) =~= a.filter(on_port(p)));
        assert(t.filter(on_port(p)) =~= a.filter(on_port(p)).push(x));
    }
}

/// `results` stably sorted by port, as `sort_by` on the port gives it.
pub fn sort_by_port(results: &Vec<ScanResult>) -> (sorted: Vec<ScanResult>)
    ensures
        sorted@.len() == results@.len(),
        is_stable_port_sort(sorted@, results@),
{
    let mut sorted: Vec<ScanResult> = Vec::new();
    let n = results.len();
    assert forall|p: u16| #[trigger] sorted@.filter(on_port(p)) == results@.take(0).filter(
        on_port(p),
    ) by {
        reveal(Seq::filter);
        assert(results@.take(0) =~= sorted@);
    }
    for i in 0..n
        invariant
            n == results@.len(),
            sorted@.len() == i,
            is_stable_port_sort(sorted@, results@.take(i as int)),
    {
        let x = results[i].duplicate();
        let mut pos: usize = sorted.len();
        while pos > 0 && sorted[pos - 1].port > x.port
            invariant
                pos <= sorted@.len(),
                sorted_by_port(sorted@),
                forall|k: int| pos <= k < sorted@.len() ==> (#[trigger] sorted@[k]).port > x.port,
            decreases pos,
        {
            pos = pos - 1;
        }
        let ghost before = sorted@;
        assert forall|k: int| 0 <= k < pos implies (#[trigger] before[k]).port <= x.port by {
            assert(before[k].port <= before[pos - 1].port);
        }
        assert(results@.take(i + 1) =~= results@.take(i as int).push(x));
        assert forall|p: u16| #[trigger] before.insert(pos as int, x).filter(on_port(p))
            == results@.take(i + 1).filter(on_port(p)) by {
            lemma_insert_sorted(before, pos as int, x, p);
            lemma_filter_push(results@.take(i as int), x, p);
        }
        proof {
            lemma_insert_sorted(before, pos as int, x, 0);
        }
        sorted.insert(pos, x);
    }
    assert(results@.take(n as int) =~= results@);
    sorted
}

/// How many bytes of a banner are shown before it is cut.
pub const BANNER_PREVIEW_BYTES: usize = 80;

/// The banner as the result list shows it: a note when it is blank, its
/// first 80 bytes followed by `...` when it is longer, the banner otherwise.
pub open spec fn banner_preview_of(banner: &str) -> Seq<char> {
    if trimmed(banner@).len() == 0 {
        "Aucune bannière détectée"@
    } else if banner.spec_bytes().len() > 80 {
        decode_utf8(banner.spec_bytes().subrange(0, 80)) + "..."@
    } else {
        banner@
    }
}

/// The banner as the result list shows it. A banner longer than 80 bytes
/// must have a character boundary at byte 80, where it is cut.
pub fn banner_preview(banner: &str) -> (shown: String)
    requires
        banner.spec_bytes().len() <= usize::MAX,
        trimmed(banner@).len() != 0 && banner.spec_bytes().len() > 80 ==> is_char_boundary(
            banner.spec_bytes(),
            80,
        ),
    ensures
        shown@ == banner_preview_of(banner),
{
    let t = trim(banner);
    if t.as_str().is_empty() {
        return "Aucune bannière détectée".to_string();
    }
    if banner.len() > BANNER_PREVIEW_BYTES {
        let (head, _tail) = banner.split_at(BANNER_PREVIEW_BYTES);
        let mut shown = head.to_string();
        proof {
            vstd::utf8::encode_utf8_decode_utf8(head@);
        }
        push_str_chars(&mut shown, "...");
        shown
    } else {
        let shown = banner.to_string();
        shown
    }
}

/// The name of the file results are exported to: the target with its dots
/// turned into underscores, and the export time in seconds since the epoch.
pub open spec fn export_file_name_of(target: Seq<char>, now_secs: nat) -> Seq<char> {
    "porthunter_"@ + replace_char(target, '.', '_') + "_"@ + decimal(now_secs) + ".json"@
}

/// The name of the file results are exported to.
pub fn export_file_name(target: &str, now_secs: u64) -> (name: String)
    ensures
        name@ == export_file_name_of(target@, now_secs as nat),
{
    let mut name = "porthunter_".to_string();
    push_replacing(&mut name, target, '.', '_');
    push_str_chars(&mut name, "_");
    push_decimal(&mut name, now_secs);
    push_str_chars(&mut name, ".json");
    name
}

} // verus!
