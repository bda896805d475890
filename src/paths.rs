use vstd::prelude::*;

verus! {

/// Index of the last `/` in `s`, or -1 when there is none.
pub open spec fn last_separator(s: Seq<char>) -> int
    decreases s.len(),
{
    if s.len() == 0 {
        -1
    } else if s.last() == '/' {
        s.len() - 1
    } else {
        last_separator(s.drop_last())
    }
}

/// The final component of a path, as a Unix path is read: empty pieces
/// and `.` pieces are skipped, a path that ends in `..` has none, and
/// neither has a path made of separators and `.` alone.
pub open spec fn final_component(s: Seq<char>) -> Option<Seq<char>>
    decreases s.len() via final_component_decreases
{
    if s.len() == 0 {
        None
    } else {
        let k = last_separator(s);
        let piece = s.subrange(k + 1, s.len() as int);
        if piece == seq!['.', '.'] {
            None
        } else if piece.len() != 0 && piece != seq!['.'] {
            Some(piece)
        } else if k < 0 {
            None
        } else {
            final_component(s.subrange(0, k))
        }
    }
}

proof fn lemma_last_separator_bounds(s: Seq<char>)
    ensures
        -1 <= last_separator(s) < s.len(),
    decreases s.len(),
{
    if s.len() > 0 {
        lemma_last_separator_bounds(s.drop_last());
    }
}

#[via_fn]
proof fn final_component_decreases(s: Seq<char>) {
    lemma_last_separator_bounds(s);
}

proof fn lemma_last_separator(s: Seq<char>, j: int, end: int)
    requires
        0 <= j <= end <= s.len(),
        forall|i: int| j <= i < end ==> s[i] != '/',
        j > 0 ==> s[j - 1] == '/',
    ensures
        last_separator(s.subrange(0, end)) == j - 1,
    decreases end,
{
    let t = s.subrange(0, end);
    if end == 0 {
    } else if end == j {
        assert(t.last() == '/');
    } else {
        assert(t.drop_last() =~= s.subrange(0, end - 1));
        lemma_last_separator(s, j, end - 1);
    }
}

/// The final component of `path`, read as a Unix path.
pub fn file_name(path: &str) -> (r: Option<String>)
    ensures
        r matches Some(n) ==> final_component(path@) == Some(n@),
        r is None ==> final_component(path@) is None,
{
    let n = path.unicode_len();
    let mut end: usize = n;
    assert(path@.subrange(0, n as int) =~= path@);
    loop
        invariant
            end <= n == path@.len(),
            final_component(path@) == final_component(path@.subrange(0, end as int)),
        decreases end,
    {
        let ghost t = path@.subrange(0, end as int);
        if end == 0 {
            assert(t.len() == 0);
            return None;
        }
        let mut j: usize = end;
        while j > 0 && path.get_char(j - 1) != '/'
            invariant
                j <= end <= n == path@.len(),
                forall|i: int| j <= i < end ==> path@[i] != '/',
            decreases j,
        {
            j = j - 1;
        }
        proof {
            lemma_last_separator(path@, j as int, end as int);
        }
        let ghost piece = t.subrange(j as int, end as int);
        assert(piece =~= path@.subrange(j as int, end as int));
        let len: usize = end - j;
        let dot0 = len >= 1 && path.get_char(j) == '.';
        let dot1 = len >= 2 && path.get_char(j + 1) == '.';
        if len == 2 && dot0 && dot1 {
            assert(piece =~= seq!['.', '.']);
            return None;
        }
        if len != 0 && !(len == 1 && dot0) {
            assert(piece != seq!['.', '.']);
            assert(piece != seq!['.']) by {
                if len == 1 {
                    assert(piece[0] != '.');
                }
            }
            let r = path.substring_char(j, end).to_owned();
            return Some(r);
        }
        assert(piece.len() == 0 || piece =~= seq!['.']);
        if j == 0 {
            return None;
        }
        assert(t.subrange(0, j - 1) =~= path@.subrange(0, j - 1));
        end = j - 1;
    }
}

} // verus!
