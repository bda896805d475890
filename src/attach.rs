use vstd::prelude::*;

use crate::config::is_word;

verus! {

/// The characters that Unicode calls white space, which `str::trim` strips.
pub open spec fn is_space(c: char) -> bool {
    let u = c as u32;
    ||| 0x09 <= u <= 0x0D
    ||| u == 0x20
    ||| u == 0x85
    ||| u == 0xA0
    ||| u == 0x1680
    ||| 0x2000 <= u <= 0x200A
    ||| u == 0x2028
    ||| u == 0x2029
    ||| u == 0x202F
    ||| u == 0x205F
    ||| u == 0x3000
}

/// Where removable volumes are mounted.
pub open spec fn mount_prefix() -> Seq<char> {
    "/Volumes/"@
}

/// Index of the first line feed at or after `i`, or the end of `s`.
pub open spec fn line_end(s: Seq<char>, i: int) -> int
    decreases s.len() - i,
{
    if i >= s.len() || s[i] == '\n' {
        i
    } else {
        line_end(s, i + 1)
    }
}

/// Start of the last tab-separated field of `s[lo..hi]`.
pub open spec fn field_start(s: Seq<char>, lo: int, hi: int) -> int
    decreases hi - lo,
{
    if hi <= lo {
        lo
    } else if s[hi - 1] == '\t' {
        hi
    } else {
        field_start(s, lo, hi - 1)
    }
}

/// First index of `s[lo..hi]` that is not white space, or `hi`.
pub open spec fn trim_start(s: Seq<char>, lo: int, hi: int) -> int
    decreases hi - lo,
{
    if lo < hi && is_space(s[lo]) {
        trim_start(s, lo + 1, hi)
    } else {
        lo
    }
}

/// End of `s[lo..hi]` once trailing white space is dropped.
pub open spec fn trim_end(s: Seq<char>, lo: int, hi: int) -> int
    decreases hi - lo,
{
    if lo < hi && is_space(s[hi - 1]) {
        trim_end(s, lo, hi - 1)
    } else {
        hi
    }
}

/// The last tab-separated field of the line that starts at `i`, trimmed.
pub open spec fn last_field(s: Seq<char>, i: int) -> Seq<char> {
    let e = line_end(s, i);
    let a = trim_start(s, field_start(s, i, e), e);
    s.subrange(a, trim_end(s, a, e))
}

pub open spec fn starts_with(t: Seq<char>, p: Seq<char>) -> bool {
    t.len() >= p.len() && t.subrange(0, p.len() as int) == p
}

/// The mount point named by the output of attaching an image, reading the
/// lines from the one that starts at `i`: the trimmed last field of the
/// first line whose field lies under the removable-volume prefix.
pub open spec fn mount_point_from(s: Seq<char>, i: int) -> Option<Seq<char>>
    decreases s.len() - i via mount_point_from_decreases
{
    if i < 0 || i > s.len() {
        None
    } else if starts_with(last_field(s, i), mount_prefix()) {
        Some(last_field(s, i))
    } else if line_end(s, i) < s.len() {
        mount_point_from(s, line_end(s, i) + 1)
    } else {
        None
    }
}

proof fn lemma_line_end_bounds(s: Seq<char>, i: int)
    requires
        0 <= i <= s.len(),
    ensures
        i <= line_end(s, i) <= s.len(),
    decreases s.len() - i,
{
    if i < s.len() && s[i] != '\n' {
        lemma_line_end_bounds(s, i + 1);
    }
}

#[via_fn]
proof fn mount_point_from_decreases(s: Seq<char>, i: int) {
    if 0 <= i <= s.len() {
        lemma_line_end_bounds(s, i);
    }
}

fn is_space_char(c: char) -> (r: bool)
    ensures
        r == is_space(c),
{
    let u = c as u32;
    (0x09 <= u && u <= 0x0D) || u == 0x20 || u == 0x85 || u == 0xA0 || u == 0x1680 || (0x2000 <= u
        && u <= 0x200A) || u == 0x2028 || u == 0x2029 || u == 0x202F || u == 0x205F || u == 0x3000
}

/// Finds the mount point in the output of attaching a disk image: the
/// trimmed last tab-separated field of the first line that begins with the
/// removable-volume prefix. `None` when no line names one.
pub fn mount_point(output: &str) -> (r: Option<String>)
    ensures
        r matches Some(m) ==> mount_point_from(output@, 0) == Some(m@),
        r is None ==> mount_point_from(output@, 0) is None,
{
    let ghost s = output@;
    let n = output.unicode_len();
    let mut i: usize = 0;
    proof {
        reveal_strlit("/Volumes/");
    }
    loop
        invariant
            s == output@,
            i <= n == s.len(),
            mount_point_from(s, 0) == mount_point_from(s, i as int),
            mount_prefix().len() == 9,
        decreases n - i,
    {
        let mut e: usize = i;
        while e < n && output.get_char(e) != '\n'
            invariant
                s == output@,
                i <= e <= n == s.len(),
                line_end(s, i as int) == line_end(s, e as int),
            decreases n - e,
        {
            e = e + 1;
        }
        let mut f: usize = e;
        while f > i && output.get_char(f - 1) != '\t'
            invariant
                s == output@,
                i <= f <= e <= n == s.len(),
                field_start(s, i as int, e as int) == field_start(s, i as int, f as int),
            decreases f,
        {
            f = f - 1;
        }
        let mut a: usize = f;
        while a < e && is_space_char(output.get_char(a))
            invariant
                s == output@,
                f <= a <= e <= n == s.len(),
                trim_start(s, f as int, e as int) == trim_start(s, a as int, e as int),
            decreases e - a,
        {
            a = a + 1;
        }
        let mut b: usize = e;
        while b > a && is_space_char(output.get_char(b - 1))
            invariant
                s == output@,
                a <= b <= e <= n == s.len(),
                trim_end(s, a as int, e as int) == trim_end(s, a as int, b as int),
            decreases b,
        {
            b = b - 1;
        }
        let ghost t = s.subrange(a as int, b as int);
        assert(last_field(s, i as int) == t);
        if b - a >= 9 {
            let head = output.substring_char(a, a + 9);
            assert(head@ =~= t.subrange(0, 9));
            if is_word(head, "/Volumes/") {
                let m = output.substring_char(a, b).to_owned();
                return Some(m);
            }
        }
        if e == n {
            return None;
        }
        i = e + 1;
    }
}

} // verus!
