//! Which entries of a dataset directory are CSV files, and in what order they
//! are processed.

use vstd::prelude::*;

verus! {

broadcast use vstd::seq_lib::group_to_multiset_ensures;

/// Whether a file name has the extension `csv` in the sense of
/// `Path::extension`: the part after the last `.` is `csv`, and that `.` is
/// not the first byte of the name (a name such as `.csv` has no extension).
pub open spec fn has_csv_extension(name: Seq<u8>) -> bool {
    &&& name.len() >= 5
    &&& name[name.len() - 4] == 46u8
    &&& name[name.len() - 3] == 99u8
    &&& name[name.len() - 2] == 115u8
    &&& name[name.len() - 1] == 118u8
}

/// Byte-wise lexicographic order, the order of file names within one directory.
pub open spec fn lex_le(a: Seq<u8>, b: Seq<u8>) -> bool
    decreases a.len(),
{
    if a.len() == 0 {
        true
    } else if b.len() == 0 {
        false
    } else if a[0] != b[0] {
        a[0] < b[0]
    } else {
        lex_le(a.drop_first(), b.drop_first())
    }
}

/// Whether `s` is in lexicographic order.
pub open spec fn names_sorted(s: Seq<Seq<u8>>) -> bool {
    forall|i: int, j: int| 0 <= i < j < s.len() ==> lex_le(s[i], s[j])
}

/// The names of `s` that carry the `csv` extension, in their order.
pub open spec fn csv_names(s: Seq<Seq<u8>>) -> Seq<Seq<u8>>
    decreases s.len(),
{
    if s.len() == 0 {
        Seq::empty()
    } else if has_csv_extension(s.last()) {
        csv_names(s.drop_last()).push(s.last())
    } else {
        csv_names(s.drop_last())
    }
}

/// The byte strings held by a vector of byte vectors.
pub open spec fn names_view(v: Seq<Vec<u8>>) -> Seq<Seq<u8>> {
    Seq::new(v.len(), |i: int| v[i]@)
}

proof fn lemma_lex_total(a: Seq<u8>, b: Seq<u8>)
    ensures
        lex_le(a, b) || lex_le(b, a),
    decreases a.len(),
{
    if a.len() > 0 && b.len() > 0 && a[0] == b[0] {
        lemma_lex_total(a.drop_first(), b.drop_first());
    }
}

proof fn lemma_lex_trans(a: Seq<u8>, b: Seq<u8>, c: Seq<u8>)
    requires
        lex_le(a, b),
        lex_le(b, c),
    ensures
        lex_le(a, c),
    decreases a.len(),
{
    if a.len() > 0 && b.len() > 0 && c.len() > 0 && a[0] == b[0] && b[0] == c[0] {
        lemma_lex_trans(a.drop_first(), b.drop_first(), c.drop_first());
    }
}

/// Compares two byte strings in lexicographic order.
fn bytes_le(a: &Vec<u8>, b: &Vec<u8>) -> (r: bool)
    ensures
        r == lex_le(a@, b@),
{
    let mut i: usize = 0;
    assert(a@.skip(0) =~= a@);
    assert(b@.skip(0) =~= b@);
    while i < a.len() && i < b.len() && a[i] == b[i]
        invariant
            i <= a@.len(),
            i <= b@.len(),
            lex_le(a@, b@) == lex_le(a@.skip(i as int), b@.skip(i as int)),
        decreases a@.len() - i,
    {
        assert(a@.skip(i as int).drop_first() =~= a@.skip(i + 1));
        assert(b@.skip(i as int).drop_first() =~= b@.skip(i + 1));
        i = i + 1;
    }
    if i == a.len() {
        true
    } else if i == b.len() {
        false
    } else {
        a[i] < b[i]
    }
}

/// The names among `names` that have the `csv` extension, sorted in
/// lexicographic byte order, as the dataset files are processed.
pub fn select_csv_files(names: Vec<Vec<u8>>) -> (r: Vec<Vec<u8>>)
    ensures
        names_sorted(names_view(r@)),
        names_view(r@).to_multiset() == csv_names(names_view(names@)).to_multiset(),
        forall|i: int| 0 <= i < r@.len() ==> has_csv_extension(#[trigger] r@[i]@),
{
    let ghost all = names_view(names@);
    let mut rest = names;
    let mut result: Vec<Vec<u8>> = Vec::new();
    while rest.len() > 0
        invariant
            names_sorted(names_view(result@)),
            forall|i: int| 0 <= i < result@.len() ==> has_csv_extension(#[trigger] result@[i]@),
            names_view(result@).to_multiset().add(csv_names(names_view(rest@)).to_multiset())
                == csv_names(all).to_multiset(),
        decreases rest@.len(),
    {
        let ghost before_rest = names_view(rest@);
        let name = rest.pop().unwrap();
        proof {
            assert(names_view(rest@) =~= before_rest.drop_last());
            assert(before_rest.last() == name@);
        }
        let is_csv = name.len() >= 5 && name[name.len() - 4] == 46u8 && name[name.len() - 3] == 99u8
            && name[name.len() - 2] == 115u8 && name[name.len() - 1] == 118u8;
        if is_csv {
            let ghost rv = names_view(result@);
            let mut i: usize = 0;
            while i < result.len() && bytes_le(&result[i], &name)
                invariant
                    i <= result@.len(),
                    rv == names_view(result@),
                    forall|k: int| 0 <= k < i ==> lex_le(rv[k], name@),
                decreases result@.len() - i,
            {
                i = i + 1;
            }
            proof {
                if i < rv.len() {
                    lemma_lex_total(rv[i as int], name@);
                }
            }
            result.insert(i, name);
            proof {
                let nv = names_view(result@);
                assert(nv =~= rv.insert(i as int, name@));
                assert forall|a: int, b: int| 0 <= a < b < nv.len() implies lex_le(nv[a], nv[b]) by {
                    if b < i {
                    } else if b == i {
                    } else if a < i {
                        assert(nv[b] == rv[b - 1]);
                        if a == b - 1 {
                        } else {
                            assert(lex_le(rv[a], rv[b - 1]));
                        }
                    } else if a == i {
                        assert(nv[b] == rv[b - 1]);
                        if b - 1 > i {
                            assert(lex_le(rv[i as int], rv[b - 1]));
                            lemma_lex_trans(name@, rv[i as int], rv[b - 1]);
                        }
                    } else {
                        assert(nv[b] == rv[b - 1]);
                        assert(nv[a] == rv[a - 1]);
                    }
                }
                assert forall|k: int| 0 <= k < result@.len() implies has_csv_extension(#[trigger] result@[k]@) by {
                    assert(result@[k]@ == nv[k]);
                    if k < i {
                        assert(nv[k] == rv[k]);
                    } else if k > i {
                        assert(nv[k] == rv[k - 1]);
                    }
                }
                vstd::seq_lib::to_multiset_insert(rv, i as int, name@);
                assert(csv_names(before_rest) == csv_names(names_view(rest@)).push(name@));
            }
        } else {
            proof {
                assert(!has_csv_extension(name@));
                assert(csv_names(before_rest) == csv_names(names_view(rest@)));
            }
        }
    }
    proof {
        assert(csv_names(names_view(rest@)) =~= Seq::<Seq<u8>>::empty());
    }
    result
}

} // verus!
