//! Text primitives: splitting a comma-joined list and composing paths.

use vstd::prelude::*;
use vstd::string::*;

verus! {

/// The separator written between the components of a composed path.
pub const PATH_SEPARATOR: char = '\\';

/// The segments of `s` between occurrences of `sep`, in source order.
/// Nothing is trimmed and empty segments are kept, so a text without any
/// separator has exactly one segment: itself.
pub open spec fn split_segments(s: Seq<char>, sep: char) -> Seq<Seq<char>>
    decreases s.len(),
{
    if s.len() == 0 {
        seq![Seq::<char>::empty()]
    } else {
        let head = split_segments(s.drop_last(), sep);
        if s.last() == sep {
            head.push(Seq::<char>::empty())
        } else {
            head.drop_last().push(head.last().push(s.last()))
        }
    }
}

/// The segments of `parts` written one after another with `sep` between
/// neighbours.
pub open spec fn join_segments(parts: Seq<Seq<char>>, sep: char) -> Seq<char>
    decreases parts.len(),
{
    if parts.len() == 0 {
        Seq::<char>::empty()
    } else if parts.len() == 1 {
        parts[0]
    } else {
        join_segments(parts.drop_last(), sep) + seq![sep] + parts.last()
    }
}

/// `base`, the path separator, then `name`.
pub open spec fn path_join(base: Seq<char>, name: Seq<char>) -> Seq<char> {
    base + seq![PATH_SEPARATOR] + name
}

/// The last component of `path`: what follows its final separator, or the
/// whole of it where it has none.
pub open spec fn file_name(path: Seq<char>) -> Seq<char>
    decreases path.len(),
{
    if path.len() == 0 {
        Seq::<char>::empty()
    } else if path.last() == PATH_SEPARATOR {
        Seq::<char>::empty()
    } else {
        file_name(path.drop_last()).push(path.last())
    }
}

/// `path` lies under `root`: it is `root`, a separator, and something more.
pub open spec fn rooted_under(path: Seq<char>, root: Seq<char>) -> bool {
    &&& path.len() > root.len()
    &&& path.subrange(0, root.len() as int) == root
    &&& path[root.len() as int] == PATH_SEPARATOR
}

/// A split always yields at least one segment.
pub proof fn lemma_split_nonempty(s: Seq<char>, sep: char)
    ensures
        split_segments(s, sep).len() >= 1,
    decreases s.len(),
{
    if s.len() > 0 {
        lemma_split_nonempty(s.drop_last(), sep);
    }
}

/// No segment of a split holds the separator.
pub proof fn lemma_split_segments_hold_no_separator(s: Seq<char>, sep: char)
    ensures
        forall|k: int|
            0 <= k < split_segments(s, sep).len() ==> !(#[trigger] split_segments(s, sep)[k]).contains(sep),
    decreases s.len(),
{
    if s.len() > 0 {
        lemma_split_nonempty(s.drop_last(), sep);
        lemma_split_segments_hold_no_separator(s.drop_last(), sep);
        let head = split_segments(s.drop_last(), sep);
        if s.last() != sep {
            let grown = head.last().push(s.last());
            assert forall|j: int| 0 <= j < grown.len() implies grown[j] != sep by {
                if j < head.last().len() {
                    assert(head.last()[j] == grown[j]);
                    assert(!head[head.len() - 1].contains(sep));
                }
            }
        }
    }
}

/// Joining the segments of a split with the same separator gives the text
/// back.
pub proof fn lemma_split_then_join(s: Seq<char>, sep: char)
    ensures
        join_segments(split_segments(s, sep), sep) == s,
    decreases s.len(),
{
    if s.len() > 0 {
        let t = s.drop_last();
        lemma_split_nonempty(t, sep);
        lemma_split_then_join(t, sep);
        let head = split_segments(t, sep);
        if s.last() == sep {
            let parts = head.push(Seq::<char>::empty());
            assert(parts.drop_last() =~= head);
            assert(join_segments(parts, sep) =~= t + seq![sep]);
            assert(t + seq![sep] =~= s);
        } else {
            let parts = head.drop_last().push(head.last().push(s.last()));
            assert(parts.drop_last() =~= head.drop_last());
            if head.len() == 1 {
                assert(join_segments(parts, sep) =~= s);
            } else {
                assert(join_segments(parts, sep) =~= join_segments(head, sep).push(s.last()));
                assert(t.push(s.last()) =~= s);
            }
        }
    }
}

/// Splitting a join of segments that hold no separator gives the segments
/// back.
pub proof fn lemma_join_then_split(parts: Seq<Seq<char>>, sep: char)
    requires
        parts.len() >= 1,
        forall|k: int| 0 <= k < parts.len() ==> !(#[trigger] parts[k]).contains(sep),
    ensures
        split_segments(join_segments(parts, sep), sep) == parts,
    decreases parts.len(),
{
    if parts.len() == 1 {
        lemma_split_plain(parts[0], sep);
        assert(seq![parts[0]] =~= parts);
    } else {
        let init = parts.drop_last();
        assert forall|k: int| 0 <= k < init.len() implies !(#[trigger] init[k]).contains(sep) by {
            assert(init[k] == parts[k]);
        }
        lemma_join_then_split(init, sep);
        lemma_split_append(join_segments(init, sep), parts.last(), sep);
        assert(init + seq![parts.last()] =~= parts);
    }
}

/// A text that holds no separator is its own single segment.
pub proof fn lemma_split_plain(s: Seq<char>, sep: char)
    requires
        !s.contains(sep),
    ensures
        split_segments(s, sep) == seq![s],
    decreases s.len(),
{
    if s.len() == 0 {
        assert(s =~= Seq::<char>::empty());
    } else {
        let t = s.drop_last();
        assert forall|j: int| 0 <= j < t.len() implies t[j] != sep by {
            assert(s[j] == t[j]);
            assert(s.contains(s[j]));
        }
        lemma_split_plain(t, sep);
        assert(s.contains(s.last()));
        assert(t.push(s.last()) =~= s);
        assert(seq![t].drop_last().push(seq![t].last().push(s.last())) =~= seq![s]);
    }
}

/// Splitting `a`, a separator and a separator-free `b` gives the segments of
/// `a` followed by `b`.
pub proof fn lemma_split_append(a: Seq<char>, b: Seq<char>, sep: char)
    requires
        !b.contains(sep),
    ensures
        split_segments(a + seq![sep] + b, sep) == split_segments(a, sep) + seq![b],
    decreases b.len(),
{
    let whole = a + seq![sep] + b;
    if b.len() == 0 {
        assert(whole.drop_last() =~= a);
        assert(b =~= Seq::<char>::empty());
        assert(split_segments(a, sep).push(Seq::<char>::empty()) =~= split_segments(a, sep) + seq![b]);
    } else {
        let t = b.drop_last();
        assert forall|j: int| 0 <= j < t.len() implies t[j] != sep by {
            assert(b[j] == t[j]);
            assert(b.contains(b[j]));
        }
        lemma_split_append(a, t, sep);
        assert(b.contains(b.last()));
        assert(whole.drop_last() =~= a + seq![sep] + t);
        assert(whole.last() == b.last());
        let head = split_segments(a, sep) + seq![t];
        assert(head.last() == t);
        assert(t.push(b.last()) =~= b);
        assert(head.drop_last().push(b) =~= split_segments(a, sep) + seq![b]);
    }
}

/// Appending a separator-free text lengthens the last segment and changes
/// nothing else.
pub proof fn lemma_split_extend(a: Seq<char>, b: Seq<char>, sep: char)
    requires
        !b.contains(sep),
    ensures
        split_segments(a, sep).len() >= 1,
        split_segments(a + b, sep) == split_segments(a, sep).drop_last().push(
            split_segments(a, sep).last() + b,
        ),
    decreases b.len(),
{
    lemma_split_nonempty(a, sep);
    let parts = split_segments(a, sep);
    if b.len() == 0 {
        assert(a + b =~= a);
        assert(parts.last() + b =~= parts.last());
        assert(parts.drop_last().push(parts.last()) =~= parts);
    } else {
        let t = b.drop_last();
        assert forall|j: int| 0 <= j < t.len() implies t[j] != sep by {
            assert(b[j] == t[j]);
            assert(b.contains(b[j]));
        }
        lemma_split_extend(a, t, sep);
        assert(b.contains(b.last()));
        let whole = a + b;
        assert(whole.drop_last() =~= a + t);
        assert(whole.last() == b.last());
        let head = parts.drop_last().push(parts.last() + t);
        assert(head.drop_last() =~= parts.drop_last());
        assert((parts.last() + t).push(b.last()) =~= parts.last() + b);
    }
}

/// Splitting what follows a separator is independent of what came before
/// it: the segments of `a`, which ends in a separator, and of `b` are those
/// of `a` without its empty last one, then those of `b`.
pub proof fn lemma_split_after_separator(a: Seq<char>, b: Seq<char>, sep: char)
    requires
        a.len() > 0,
        a.last() == sep,
    ensures
        split_segments(a + b, sep) == split_segments(a, sep).drop_last() + split_segments(b, sep),
    decreases b.len(),
{
    lemma_split_nonempty(a, sep);
    lemma_split_nonempty(a.drop_last(), sep);
    let front = split_segments(a, sep).drop_last();
    if b.len() == 0 {
        assert(a + b =~= a);
        assert(front + split_segments(b, sep) =~= split_segments(a, sep));
    } else {
        let t = b.drop_last();
        lemma_split_after_separator(a, t, sep);
        lemma_split_nonempty(t, sep);
        let whole = a + b;
        assert(whole.drop_last() =~= a + t);
        assert(whole.last() == b.last());
        let back = split_segments(t, sep);
        let head = front + back;
        assert(head.last() == back.last());
        assert(head.drop_last() =~= front + back.drop_last());
        if b.last() == sep {
            assert(head.push(Seq::<char>::empty()) =~= front + back.push(Seq::<char>::empty()));
        } else {
            let grown = back.last().push(b.last());
            assert(head.drop_last().push(grown) =~= front + back.drop_last().push(grown));
        }
    }
}

/// The file name of a path whose last component holds no separator is that
/// component.
pub proof fn lemma_file_name_of_join(base: Seq<char>, name: Seq<char>)
    requires
        !name.contains(PATH_SEPARATOR),
    ensures
        file_name(path_join(base, name)) == name,
    decreases name.len(),
{
    let whole = path_join(base, name);
    if name.len() == 0 {
        assert(whole.last() == PATH_SEPARATOR);
        assert(file_name(whole) =~= name);
    } else {
        let t = name.drop_last();
        assert forall|j: int| 0 <= j < t.len() implies t[j] != PATH_SEPARATOR by {
            assert(name[j] == t[j]);
            assert(name.contains(name[j]));
        }
        lemma_file_name_of_join(base, t);
        assert(name.contains(name.last()));
        assert(whole.drop_last() =~= path_join(base, t));
        assert(whole.last() == name.last());
        assert(t.push(name.last()) =~= name);
    }
}

/// A composed path lies under its base.
pub proof fn lemma_join_rooted(base: Seq<char>, name: Seq<char>)
    ensures
        rooted_under(path_join(base, name), base),
{
    let whole = path_join(base, name);
    assert(whole.subrange(0, base.len() as int) =~= base);
}

/// What lies under a path that lies under `root` lies under `root`.
pub proof fn lemma_rooted_transitive(path: Seq<char>, middle: Seq<char>, root: Seq<char>)
    requires
        rooted_under(path, middle),
        rooted_under(middle, root),
    ensures
        rooted_under(path, root),
{
    let m = path.subrange(0, middle.len() as int);
    assert(path.subrange(0, root.len() as int) =~= m.subrange(0, root.len() as int));
    assert(path[root.len() as int] == m[root.len() as int]);
}

/// Splits `s` at every `sep`, keeping empty segments and trimming nothing.
/// Characters are fetched by position, so the time taken grows with the
/// square of the length; the texts split here are single lines of a
/// configuration.
pub fn split_on(s: &str, sep: char) -> (r: Vec<String>)
    ensures
        r.deep_view() == split_segments(s@, sep),
{
    let n: usize = s.unicode_len();
    let mut out: Vec<String> = Vec::new();
    let mut start: usize = 0;
    let mut i: usize = 0;
    proof {
        assert(s@.take(0) =~= Seq::<char>::empty());
        assert(out.deep_view().push(s@.subrange(0, 0)) =~= seq![Seq::<char>::empty()]);
    }
    while i < n
        invariant
            start <= i <= n,
            n == s@.len(),
            split_segments(s@.take(i as int), sep) == out.deep_view().push(
                s@.subrange(start as int, i as int),
            ),
        decreases n - i,
    {
        let c: char = s.get_char(i);
        let ghost before = out.deep_view();
        let ghost prefix = s@.take(i as int + 1);
        proof {
            assert(prefix.drop_last() =~= s@.take(i as int));
            assert(prefix.last() == s@[i as int]);
        }
        if c == sep {
            let piece: String = String::from_str(s.substring_char(start, i));
            out.push(piece);
            start = i + 1;
            proof {
                assert(out.deep_view() =~= before.push(piece@));
                assert(s@.subrange(start as int, i as int + 1) =~= Seq::<char>::empty());
            }
        } else {
            proof {
                let head = before.push(s@.subrange(start as int, i as int));
                assert(head.drop_last() =~= before);
                assert(head.last().push(c) =~= s@.subrange(start as int, i as int + 1));
            }
        }
        i += 1;
    }
    let ghost before = out.deep_view();
    let tail: String = String::from_str(s.substring_char(start, n));
    out.push(tail);
    proof {
        assert(s@.take(n as int) =~= s@);
        assert(out.deep_view() =~= before.push(tail@));
    }
    out
}

/// Composes `base` and `name` into one path.
pub fn join_path(base: &str, name: &str) -> (r: String)
    ensures
        r@ == path_join(base@, name@),
{
    let mut r: String = String::from_str(base);
    r.append("\\");
    r.append(name);
    proof {
        reveal_strlit("\\");
        assert("\\"@ =~= seq![PATH_SEPARATOR]);
    }
    r
}

/// `head` followed by `tail`.
pub fn concat_text(head: &str, tail: &str) -> (r: String)
    ensures
        r@ == head@ + tail@,
{
    let mut r: String = String::from_str(head);
    r.append(tail);
    r
}

} // verus!
