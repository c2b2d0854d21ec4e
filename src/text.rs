use vstd::prelude::*;

verus! {

/// A one-character string.
pub open spec fn single(c: char) -> Seq<char> {
    seq![c]
}

/// Whether `t` occurs in `ss`.
pub open spec fn seq_contains(ss: Seq<Seq<char>>, t: Seq<char>) -> bool {
    exists|i: int| 0 <= i < ss.len() && ss[i] == t
}

/// The views of a list of strings.
pub open spec fn views(v: Seq<String>) -> Seq<Seq<char>> {
    v.map_values(|s: String| s@)
}

/// Exact string equality.
pub fn str_equal(a: &str, b: &str) -> (r: bool)
    ensures
        r == (a@ == b@),
{
    let sa = String::from_str(a);
    let sb = String::from_str(b);
    sa == sb
}

/// Whether any string of `v` equals `t`.
pub fn contains_str(v: &Vec<String>, t: &str) -> (r: bool)
    ensures
        r == seq_contains(views(v@), t@),
{
    let mut i: usize = 0;
    while i < v.len()
        invariant
            i <= v@.len(),
            forall|j: int| 0 <= j < i ==> v@[j]@ != t@,
        decreases v@.len() - i,
    {
        if str_equal(v[i].as_str(), t) {
            assert(views(v@)[i as int] == t@);
            return true;
        }
        i += 1;
    }
    false
}

/// Appends the character at `i` of `s` to `out`.
pub(crate) fn push_char_of(out: &mut String, s: &str, i: usize)
    requires
        i < s@.len() <= usize::MAX,
    ensures
        final(out)@ == old(out)@.push(s@[i as int]),
{
    let piece = s.substring_char(i, i + 1);
    out.append(piece);
    assert(piece@ =~= seq![s@[i as int]]);
}

/// The parts joined with `sep` between each two.
pub open spec fn join(parts: Seq<Seq<char>>, sep: Seq<char>) -> Seq<char>
    decreases parts.len(),
{
    if parts.len() == 0 {
        seq![]
    } else if parts.len() == 1 {
        parts[0]
    } else {
        join(parts.drop_last(), sep) + sep + parts.last()
    }
}

/// A string in double quotes.
pub open spec fn quoted(s: Seq<char>) -> Seq<char> {
    "\""@ + s + "\""@
}

/// A bracketed list of quoted strings: `["a", "b"]`.
pub open spec fn quoted_list(parts: Seq<Seq<char>>) -> Seq<char> {
    "["@ + join(parts.map_values(|s: Seq<char>| quoted(s)), ", "@) + "]"@
}

/// Joins the strings of `parts` with `sep`.
pub fn join_strings(parts: &Vec<String>, sep: &str) -> (r: String)
    ensures
        r@ == join(views(parts@), sep@),
{
    let mut out = String::new();
    let mut i: usize = 0;
    while i < parts.len()
        invariant
            i <= parts@.len(),
            out@ == join(views(parts@).subrange(0, i as int), sep@),
        decreases parts@.len() - i,
    {
        if i > 0 {
            out.append(sep);
        }
        out.append(parts[i].as_str());
        proof {
            let pre = views(parts@).subrange(0, i as int);
            let next = views(parts@).subrange(0, i + 1);
            assert(next.drop_last() =~= pre);
            if i == 0 {
                assert(pre =~= seq![]);
            }
        }
        i += 1;
    }
    assert(views(parts@).subrange(0, parts@.len() as int) =~= views(parts@));
    out
}

/// Renders strings as a bracketed list of quoted strings.
pub fn quote_list(parts: &Vec<String>) -> (r: String)
    ensures
        r@ == quoted_list(views(parts@)),
{
    let mut quoted_parts: Vec<String> = Vec::new();
    let mut i: usize = 0;
    while i < parts.len()
        invariant
            i <= parts@.len(),
            quoted_parts@.len() == i,
            forall|j: int| 0 <= j < i ==> #[trigger] quoted_parts@[j]@ == quoted(parts@[j]@),
        decreases parts@.len() - i,
    {
        let mut q = String::from_str("\"");
        q.append(parts[i].as_str());
        q.append("\"");
        quoted_parts.push(q);
        i += 1;
    }
    let mut out = String::from_str("[");
    let inner = join_strings(&quoted_parts, ", ");
    out.append(inner.as_str());
    out.append("]");
    proof {
        assert(views(quoted_parts@) =~= views(parts@).map_values(|s: Seq<char>| quoted(s)));
    }
    out
}

} // verus!
