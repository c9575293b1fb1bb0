//! Splitting text at a separator character.
use vstd::prelude::*;

verus! {

/// The fields of `s` between occurrences of `sep`, as `str::split` yields
/// them: a text with `k` separators has `k + 1` fields, empty ones included.
pub open spec fn split_chars(s: Seq<char>, sep: char) -> Seq<Seq<char>>
    decreases s.len(),
{
    if s.len() == 0 {
        seq![Seq::<char>::empty()]
    } else {
        let r = split_chars(s.drop_last(), sep);
        if s.last() == sep {
            r.push(Seq::<char>::empty())
        } else {
            r.update(r.len() - 1, r.last().push(s.last()))
        }
    }
}

pub proof fn lemma_split_chars_nonempty(s: Seq<char>, sep: char)
    ensures
        split_chars(s, sep).len() >= 1,
    decreases s.len(),
{
    if s.len() > 0 {
        lemma_split_chars_nonempty(s.drop_last(), sep);
    }
}

/// The fields joined, with `sep` between neighbouring ones.
pub open spec fn join_chars(fields: Seq<Seq<char>>, sep: char) -> Seq<char>
    decreases fields.len(),
{
    if fields.len() <= 1 {
        if fields.len() == 1 {
            fields[0]
        } else {
            Seq::<char>::empty()
        }
    } else {
        join_chars(fields.drop_last(), sep) + seq![sep] + fields.last()
    }
}

proof fn lemma_join_extend_last(fields: Seq<Seq<char>>, sep: char, c: char)
    requires
        fields.len() >= 1,
    ensures
        join_chars(fields.update(fields.len() - 1, fields.last().push(c)), sep) == join_chars(
            fields,
            sep,
        ).push(c),
{
    let updated = fields.update(fields.len() - 1, fields.last().push(c));
    if fields.len() > 1 {
        assert(updated.drop_last() =~= fields.drop_last());
        assert(join_chars(updated, sep) =~= join_chars(fields, sep).push(c));
    } else {
        assert(join_chars(updated, sep) =~= join_chars(fields, sep).push(c));
    }
}

/// Joining the fields of a text with the separator gives back the text, and
/// no field holds the separator.
pub proof fn lemma_split_join(s: Seq<char>, sep: char)
    ensures
        join_chars(split_chars(s, sep), sep) == s,
        forall|i: int|
            0 <= i < split_chars(s, sep).len() ==> !(#[trigger] split_chars(s, sep)[i]).contains(
                sep,
            ),
    decreases s.len(),
{
    if s.len() == 0 {
        assert(join_chars(split_chars(s, sep), sep) =~= s);
    } else {
        let t = s.drop_last();
        let r = split_chars(t, sep);
        lemma_split_join(t, sep);
        lemma_split_chars_nonempty(t, sep);
        if s.last() == sep {
            assert(r.push(Seq::<char>::empty()).drop_last() =~= r);
            assert(join_chars(split_chars(s, sep), sep) =~= s);
            assert forall|i: int|
                0 <= i < split_chars(s, sep).len() implies !(#[trigger] split_chars(s, sep)[i]).contains(
                sep,
            ) by {
                if i < r.len() {
                    assert(split_chars(s, sep)[i] == r[i]);
                } else {
                    assert(split_chars(s, sep)[i] =~= Seq::<char>::empty());
                }
            }
        } else {
            lemma_join_extend_last(r, sep, s.last());
            assert(t.push(s.last()) =~= s);
            assert forall|i: int|
                0 <= i < split_chars(s, sep).len() implies !(#[trigger] split_chars(s, sep)[i]).contains(
                sep,
            ) by {
                if i < r.len() - 1 {
                    assert(split_chars(s, sep)[i] == r[i]);
                } else {
                    let f = r.last().push(s.last());
                    assert(split_chars(s, sep)[i] == f);
                    assert(!r[r.len() - 1].contains(sep));
                    if f.contains(sep) {
                        let j = choose|j: int| 0 <= j < f.len() && f[j] == sep;
                        if j < r.last().len() {
                            assert(r.last()[j] == sep);
                        }
                    }
                }
            }
        }
    }
}

/// Splits a text into its fields between occurrences of `sep`.
pub fn split_at_char(s: &str, sep: char) -> (fields: Vec<String>)
    ensures
        fields@.map_values(|f: String| f@) == split_chars(s@, sep),
{
    let n = s.unicode_len();
    let mut fields: Vec<String> = Vec::new();
    let mut start: usize = 0;
    let mut i: usize = 0;
    assert(s@.take(0) =~= Seq::<char>::empty());
    assert(s@.subrange(0, 0) =~= Seq::<char>::empty());
    while i < n
        invariant
            n == s@.len(),
            start <= i <= n,
            fields@.map_values(|f: String| f@) + seq![s@.subrange(start as int, i as int)]
                == split_chars(s@.take(i as int), sep),
        decreases n - i,
    {
        let c = s.get_char(i);
        let ghost prev = fields@.map_values(|f: String| f@);
        proof {
            assert(s@.take(i + 1).drop_last() =~= s@.take(i as int));
            assert(s@.take(i + 1).last() == c);
            lemma_split_chars_nonempty(s@.take(i as int), sep);
        }
        if c == sep {
            let field = s.substring_char(start, i).to_owned();
            let ghost field_view = field@;
            fields.push(field);
            proof {
                assert(fields@.map_values(|f: String| f@) =~= prev.push(field_view));
            }
            start = i + 1;
            assert(s@.subrange(start as int, i + 1) =~= Seq::<char>::empty());
        } else {
            proof {
                assert(s@.subrange(start as int, i + 1) =~= s@.subrange(
                    start as int,
                    i as int,
                ).push(c));
            }
        }
        i = i + 1;
    }
    assert(s@.take(n as int) =~= s@);
    let last = s.substring_char(start, n).to_owned();
    let ghost prev = fields@.map_values(|f: String| f@);
    fields.push(last);
    assert(fields@.map_values(|f: String| f@) =~= prev.push(s@.subrange(start as int, n as int)));
    fields
}

} // verus!
