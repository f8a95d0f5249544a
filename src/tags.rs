use vstd::prelude::*;

verus! {

/// The separator between tags in their raw form.
pub const TAG_SEPARATOR: char = ',';

/// The pieces of `s` between occurrences of `sep`, in order and untrimmed.
/// There is always one more piece than there are separators, so the empty
/// string splits into one empty piece.
pub open spec fn split_on(s: Seq<char>, sep: char) -> Seq<Seq<char>>
    decreases s.len(),
{
    if s.len() == 0 {
        seq![Seq::empty()]
    } else {
        let init = split_on(s.drop_last(), sep);
        if s.last() == sep {
            init.push(Seq::empty())
        } else {
            init.update(init.len() - 1, init.last().push(s.last()))
        }
    }
}

/// The character content of each string of a sequence.
pub open spec fn strings_view(v: Seq<String>) -> Seq<Seq<char>> {
    v.map_values(|t: String| t@)
}

proof fn lemma_split_nonempty(s: Seq<char>, sep: char)
    ensures
        split_on(s, sep).len() >= 1,
    decreases s.len(),
{
    if s.len() > 0 {
        lemma_split_nonempty(s.drop_last(), sep);
    }
}

/// Splits the raw value of the tag list on commas, keeping the order of the
/// tags and every character of each, spaces included.
pub fn parse_dcb_metadata_tags(raw: &str) -> (r: Vec<String>)
    ensures
        strings_view(r@) == split_on(raw@, TAG_SEPARATOR),
{
    let n = raw.unicode_len();
    let mut tags: Vec<String> = Vec::new();
    let mut start: usize = 0;
    let mut i: usize = 0;
    proof {
        assert(raw@.subrange(0, 0) =~= Seq::<char>::empty());
        assert(strings_view(tags@) =~= Seq::<Seq<char>>::empty());
        assert(raw@.subrange(0, 0) == raw@.subrange(start as int, i as int));
    }
    while i < n
        invariant
            n == raw@.len(),
            start <= i <= n,
            split_on(raw@.subrange(0, i as int), TAG_SEPARATOR) == strings_view(tags@).push(
                raw@.subrange(start as int, i as int),
            ),
        decreases n - i,
    {
        let c = raw.get_char(i);
        let ghost prefix = raw@.subrange(0, i + 1);
        let ghost before = strings_view(tags@);
        proof {
            assert(prefix.drop_last() =~= raw@.subrange(0, i as int));
            assert(prefix.last() == c);
            lemma_split_nonempty(raw@.subrange(0, i as int), TAG_SEPARATOR);
        }
        if c == TAG_SEPARATOR {
            let piece = raw.substring_char(start, i);
            tags.push(String::from_str(piece));
            proof {
                assert(strings_view(tags@) =~= before.push(raw@.subrange(start as int, i as int)));
                assert(raw@.subrange(i + 1, i + 1) =~= Seq::<char>::empty());
            }
            start = i + 1;
        } else {
            proof {
                assert(raw@.subrange(start as int, i + 1) =~= raw@.subrange(
                    start as int,
                    i as int,
                ).push(c));
                assert(before.push(raw@.subrange(start as int, i as int)).update(
                    before.len() as int,
                    raw@.subrange(start as int, i + 1),
                ) =~= before.push(raw@.subrange(start as int, i + 1)));
            }
        }
        i = i + 1;
    }
    let last = raw.substring_char(start, n);
    let ghost before = strings_view(tags@);
    tags.push(String::from_str(last));
    proof {
        assert(raw@.subrange(0, n as int) =~= raw@);
        assert(strings_view(tags@) =~= before.push(raw@.subrange(start as int, n as int)));
    }
    tags
}

} // verus!
