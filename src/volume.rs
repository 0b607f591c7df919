use vstd::prelude::*;
use vstd::multiset::Multiset;
use vstd::seq_lib::*;

verus! {

/// One volume record as the browser uses it: its name, its platform tag, and the
/// pretty-printed text of the whole record shown in the detail panel.
#[derive(Debug)]
pub struct Volume {
    pub name: String,
    pub vol_type: String,
    pub details: String,
}

impl Volume {
    pub fn new(name: String, vol_type: String, details: String) -> (r: Volume)
        ensures
            r.name@ == name@,
            r.vol_type@ == vol_type@,
            r.details@ == details@,
    {
        Volume { name, vol_type, details }
    }
}

/// Lexicographic order on character sequences, comparing code points.
pub open spec fn lex_le(a: Seq<char>, b: Seq<char>) -> bool
    decreases a.len(),
{
    if a.len() == 0 {
        true
    } else if b.len() == 0 {
        false
    } else if (a[0] as u32) < (b[0] as u32) {
        true
    } else if (a[0] as u32) > (b[0] as u32) {
        false
    } else {
        lex_le(a.drop_first(), b.drop_first())
    }
}

/// Every volume's name is at most the next one's.
pub open spec fn sorted_by_name(s: Seq<Volume>) -> bool {
    forall|i: int| 0 <= i < s.len() - 1 ==> lex_le(#[trigger] s[i].name@, s[i + 1].name@)
}

/// Whether a volume has the given name.
pub open spec fn name_is(n: Seq<char>) -> spec_fn(Volume) -> bool {
    |v: Volume| v.name@ == n
}

/// The volumes of a sequence that have the given name, in their order there.
pub open spec fn with_name(s: Seq<Volume>, n: Seq<char>) -> Seq<Volume> {
    s.filter(name_is(n))
}

pub proof fn lemma_lex_refl(a: Seq<char>)
    ensures
        lex_le(a, a),
    decreases a.len(),
{
    if a.len() > 0 {
        lemma_lex_refl(a.drop_first());
    }
}

/// Inserting a volume before every volume of its name puts it first among them,
/// and leaves the volumes of other names as they were.
proof fn lemma_insert_before_equal_names(out: Seq<Volume>, p: int, x: Volume, n: Seq<char>)
    requires
        0 <= p <= out.len(),
        forall|k: int| 0 <= k < p ==> (#[trigger] out[k]).name@ != x.name@,
    ensures
        with_name(out.insert(p, x), n) == (if x.name@ == n {
            seq![x]
        } else {
            Seq::empty()
        }) + with_name(out, n),
{
    let f = name_is(n);
    let a = out.subrange(0, p);
    let b = out.subrange(p, out.len() as int);
    assert(out == a + b);
    assert(out.insert(p, x) == a + (seq![x] + b));
    Seq::filter_distributes_over_add(a, seq![x] + b, f);
    Seq::filter_distributes_over_add(a, b, f);
    b.lemma_filter_prepend(x, f);
    if x.name@ == n {
        assert forall|k: int| 0 <= k < a.len() implies !f(#[trigger] a[k]) by {
            assert(a[k] == out[k]);
        }
        a.lemma_all_neg_filter_empty(f);
        assert(a.filter(f) == Seq::<Volume>::empty());
    }
    assert(with_name(out.insert(p, x), n) =~= (if x.name@ == n {
        seq![x]
    } else {
        Seq::empty()
    }) + with_name(out, n));
}

/// Any two sequences are ordered one way or the other.
pub proof fn lemma_lex_total(a: Seq<char>, b: Seq<char>)
    ensures
        lex_le(a, b) || lex_le(b, a),
    decreases a.len(),
{
    if a.len() > 0 && b.len() > 0 && (a[0] as u32) == (b[0] as u32) {
        lemma_lex_total(a.drop_first(), b.drop_first());
    }
}

/// Relies on `<str as PartialOrd>::le`: strings are ordered lexicographically,
/// which orders characters by their code points.
#[verifier::external_body]
fn str_le(a: &str, b: &str) -> (r: bool)
    ensures
        r == lex_le(a@, b@),
{
    a <= b
}

/// Sorts volumes by name, case-sensitively, keeping the same records; volumes
/// of equal names keep their order.
pub fn sort_by_name(items: Vec<Volume>) -> (r: Vec<Volume>)
    ensures
        sorted_by_name(r@),
        r@.to_multiset() == items@.to_multiset(),
        r@.len() == items@.len(),
        forall|n: Seq<char>| #[trigger] with_name(r@, n) == with_name(items@, n),
{
    broadcast use group_to_multiset_ensures;

    let mut rest = items;
    let mut out: Vec<Volume> = Vec::new();
    while rest.len() > 0
        invariant
            sorted_by_name(out@),
            out@.to_multiset().add(rest@.to_multiset()) == items@.to_multiset(),
            out@.len() + rest@.len() == items@.len(),
            rest@ == items@.subrange(0, rest@.len() as int),
            forall|n: Seq<char>| #[trigger] with_name(out@, n) == with_name(
                items@.subrange(rest@.len() as int, items@.len() as int),
                n,
            ),
        decreases rest@.len(),
    {
        let ghost before = rest@;
        let x = rest.pop().unwrap();
        assert(before == rest@.push(x));
        let mut p: usize = 0;
        while p < out.len() && !str_le(x.name.as_str(), out[p].name.as_str())
            invariant
                p <= out@.len(),
                forall|k: int| 0 <= k < p ==> lex_le(#[trigger] out@[k].name@, x.name@),
                forall|k: int| 0 <= k < p ==> !lex_le(x.name@, #[trigger] out@[k].name@),
            decreases out@.len() - p,
        {
            proof {
                lemma_lex_total(x.name@, out@[p as int].name@);
            }
            p = p + 1;
        }
        let ghost old_out = out@;
        out.insert(p, x);
        proof {
            assert(out@ == old_out.insert(p as int, x));
            assert forall|i: int| 0 <= i < out@.len() - 1 implies lex_le(
                #[trigger] out@[i].name@,
                out@[i + 1].name@,
            ) by {
                if i + 1 < p {
                    assert(out@[i] == old_out[i] && out@[i + 1] == old_out[i + 1]);
                } else if i + 1 == p {
                    assert(out@[i] == old_out[i]);
                } else if i == p {
                } else {
                    assert(out@[i] == old_out[i - 1] && out@[i + 1] == old_out[i]);
                }
            }
            to_multiset_insert(old_out, p as int, x);
            to_multiset_build(rest@, x);
            lemma_lex_refl(x.name@);
            let m = rest@.len() as int;
            let done = items@.subrange(m + 1, items@.len() as int);
            assert(items@.subrange(m, items@.len() as int) == seq![x] + done);
            assert(rest@ == items@.subrange(0, m));
            assert forall|n: Seq<char>| #[trigger] with_name(out@, n) == with_name(
                items@.subrange(m, items@.len() as int),
                n,
            ) by {
                lemma_insert_before_equal_names(old_out, p as int, x, n);
                done.lemma_filter_prepend(x, name_is(n));
            }
        }
    }
    proof {
        assert(rest@.to_multiset() =~= Multiset::empty());
        assert(items@.subrange(0, items@.len() as int) == items@);
    }
    out
}

} // verus!
