use vstd::prelude::*;
use crate::regex_support::{regex_compiles, regex_is_match, regex_finds, regex_valid};
use crate::text::{contains_str, push_char_of, seq_contains, views};

verus! {

/// Characters that have a meaning in a regular expression and are escaped
/// when a glob is translated.
pub open spec fn is_regex_meta(c: char) -> bool {
    c == '.' || c == '+' || c == '?' || c == '(' || c == ')' || c == '[' || c == ']'
        || c == '{' || c == '}' || c == '|' || c == '\\' || c == '^' || c == '$'
}

/// Translation of a glob body into regex syntax, left to right: `**` crosses
/// path separators, `*` stays within one segment, metacharacters are escaped.
pub open spec fn translate_glob(s: Seq<char>) -> Seq<char>
    decreases s.len(),
{
    if s.len() == 0 {
        seq![]
    } else if s[0] == '*' && s.len() >= 2 && s[1] == '*' {
        ".*"@ + translate_glob(s.skip(2))
    } else if s[0] == '*' {
        "[^/]*"@ + translate_glob(s.skip(1))
    } else if is_regex_meta(s[0]) {
        seq!['\\', s[0]] + translate_glob(s.skip(1))
    } else {
        seq![s[0]] + translate_glob(s.skip(1))
    }
}

pub open spec fn has_start_anchor(p: Seq<char>) -> bool {
    p.len() > 0 && p[0] == '^'
}

pub open spec fn has_end_anchor(p: Seq<char>) -> bool {
    p.len() > 0 && p.last() == '$'
}

/// The glob body: the pattern without a leading `^` and a trailing `$`.
pub open spec fn glob_body(p: Seq<char>) -> Seq<char> {
    let q = if has_start_anchor(p) { p.skip(1) } else { p };
    if q.len() > 0 && q.last() == '$' { q.drop_last() } else { q }
}

/// The regular expression that a glob pattern stands for.
pub open spec fn glob_regex(p: Seq<char>) -> Seq<char> {
    (if has_start_anchor(p) { "^"@ } else { seq![] }) + translate_glob(glob_body(p)) + (if has_end_anchor(
        p,
    ) { "$"@ } else { seq![] })
}

/// A glob matches a path when its regex compiles and finds the path; a
/// pattern that does not compile matches nothing.
pub open spec fn glob_matches(p: Seq<char>, path: Seq<char>) -> bool {
    regex_valid(glob_regex(p)) && regex_finds(glob_regex(p), path)
}

/// Whether some pattern of `ps` matches `path` as a glob.
pub open spec fn any_glob_matches(ps: Seq<Seq<char>>, path: Seq<char>) -> bool {
    exists|i: int| 0 <= i < ps.len() && glob_matches(ps[i], path)
}

/// A path with every backslash turned into a forward slash.
pub open spec fn normalized_path(s: Seq<char>) -> Seq<char> {
    s.map_values(|c: char| if c == '\\' { '/' } else { c })
}

/// The selection decision on a normalized path; the first rule that applies wins.
pub open spec fn selected(path: Seq<char>, includes: Seq<Seq<char>>, excludes: Seq<Seq<char>>) -> bool {
    if seq_contains(excludes, path) {
        false
    } else if seq_contains(includes, path) {
        true
    } else if any_glob_matches(excludes, path) {
        false
    } else if any_glob_matches(includes, path) {
        true
    } else {
        includes.len() == 0
    }
}

/// The patterns of an optional list; an absent list has none.
pub open spec fn pattern_list(o: Option<&Vec<String>>) -> Seq<Seq<char>> {
    match o {
        Some(v) => views(v@),
        None => seq![],
    }
}

/// The decision for a raw path: it is normalized, then `selected` decides.
pub open spec fn path_selected(path: Seq<char>, includes: Seq<Seq<char>>, excludes: Seq<Seq<char>>) -> bool {
    selected(normalized_path(path), includes, excludes)
}

/// Translates a glob pattern to a regular expression.
pub fn glob_to_regex(pattern: &str) -> (r: String)
    ensures
        r@ == glob_regex(pattern@),
{
    let n = pattern.unicode_len();
    let start = n > 0 && pattern.get_char(0) == '^';
    let end = n > 0 && pattern.get_char(n - 1) == '$';
    let mut lo: usize = if start { 1 } else { 0 };
    let mut hi: usize = n;
    if hi > lo && pattern.get_char(hi - 1) == '$' {
        hi = hi - 1;
    }
    let ghost p = pattern@;
    let ghost body = p.subrange(lo as int, hi as int);
    proof {
        let q = if has_start_anchor(p) { p.skip(1) } else { p };
        if q.len() > 0 && q.last() == '$' {
            assert(body =~= q.drop_last());
        } else {
            assert(body =~= q);
        }
        assert(body == glob_body(p));
    }
    let mut out = String::new();
    if start {
        out.append("^");
    }
    let ghost prefix = out@;
    let mut i: usize = lo;
    while i < hi
        invariant
            lo <= i <= hi <= n,
            n == p.len(),
            p == pattern@,
            body == p.subrange(lo as int, hi as int),
            out@ + translate_glob(p.subrange(i as int, hi as int)) == prefix + translate_glob(body),
        decreases hi - i,
    {
        let ghost rest = p.subrange(i as int, hi as int);
        let c = pattern.get_char(i);
        if c == '*' && i + 1 < hi && pattern.get_char(i + 1) == '*' {
            proof {
                assert(rest.skip(2) =~= p.subrange(i + 2, hi as int));
            }
            out.append(".*");
            i = i + 2;
        } else if c == '*' {
            proof {
                assert(rest.skip(1) =~= p.subrange(i + 1, hi as int));
            }
            out.append("[^/]*");
            i = i + 1;
        } else {
            proof {
                assert(rest.skip(1) =~= p.subrange(i + 1, hi as int));
            }
            if c == '.' || c == '+' || c == '?' || c == '(' || c == ')' || c == '[' || c == ']'
                || c == '{' || c == '}' || c == '|' || c == '\\' || c == '^' || c == '$' {
                out.append("\\");
            }
            push_char_of(&mut out, pattern, i);
            proof {
                if is_regex_meta(c) {
                    assert(seq!['\\', c] =~= "\\"@.push(c)) by {
                        reveal_strlit("\\");
                    }
                }
            }
            i = i + 1;
        }
        proof {
            assert(out@ + translate_glob(p.subrange(i as int, hi as int)) =~= prefix
                + translate_glob(body));
        }
    }
    proof {
        assert(p.subrange(i as int, hi as int) =~= seq![]);
    }
    if end {
        out.append("$");
    }
    proof {
        assert(out@ =~= glob_regex(pattern@));
    }
    out
}

/// Whether a glob pattern matches a path; an uncompilable pattern never matches.
pub fn glob_match(pattern: &str, path: &str) -> (r: bool)
    ensures
        r == glob_matches(pattern@, path@),
{
    let re = glob_to_regex(pattern);
    if regex_compiles(re.as_str()) {
        regex_is_match(re.as_str(), path)
    } else {
        false
    }
}

/// Whether any pattern of `patterns` matches `path` as a glob.
pub fn any_glob_match(patterns: &Vec<String>, path: &str) -> (r: bool)
    ensures
        r == any_glob_matches(views(patterns@), path@),
{
    let mut i: usize = 0;
    while i < patterns.len()
        invariant
            i <= patterns@.len(),
            forall|j: int| 0 <= j < i ==> !glob_matches(patterns@[j]@, path@),
        decreases patterns@.len() - i,
    {
        if glob_match(patterns[i].as_str(), path) {
            assert(glob_matches(views(patterns@)[i as int], path@));
            return true;
        }
        i += 1;
    }
    proof {
        assert forall|j: int| 0 <= j < views(patterns@).len() implies !glob_matches(
            #[trigger] views(patterns@)[j],
            path@,
        ) by {
            assert(views(patterns@)[j] == patterns@[j]@);
        }
    }
    false
}

/// Turns every backslash of a path into a forward slash.
pub fn normalize_path(path: &str) -> (r: String)
    ensures
        r@ == normalized_path(path@),
{
    let n = path.unicode_len();
    let mut out = String::new();
    let mut i: usize = 0;
    while i < n
        invariant
            i <= n == path@.len(),
            out@ == normalized_path(path@.subrange(0, i as int)),
        decreases n - i,
    {
        let c = path.get_char(i);
        if c == '\\' {
            out.append("/");
            proof {
                reveal_strlit("/");
            }
        } else {
            push_char_of(&mut out, path, i);
        }
        assert(normalized_path(path@.subrange(0, i + 1)) =~= normalized_path(
            path@.subrange(0, i as int),
        ).push(if c == '\\' { '/' } else { c }));
        i += 1;
    }
    assert(path@.subrange(0, n as int) =~= path@);
    out
}

fn list_contains(o: Option<&Vec<String>>, path: &str) -> (r: bool)
    ensures
        r == seq_contains(pattern_list(o), path@),
{
    match o {
        Some(v) => contains_str(v, path),
        None => false,
    }
}

fn list_glob_matches(o: Option<&Vec<String>>, path: &str) -> (r: bool)
    ensures
        r == any_glob_matches(pattern_list(o), path@),
{
    match o {
        Some(v) => any_glob_match(v, path),
        None => false,
    }
}

/// Decides whether a path is selected by include and exclude patterns.
/// Exact matches are tested before globs, excludes before includes; a
/// non-empty include list that matches nothing excludes the path.
pub fn should_select(path: &str, includes: Option<&Vec<String>>, excludes: Option<&Vec<String>>) -> (r: bool)
    ensures
        r == path_selected(path@, pattern_list(includes), pattern_list(excludes)),
{
    let normalized = normalize_path(path);
    let p = normalized.as_str();
    if list_contains(excludes, p) {
        return false;
    }
    if list_contains(includes, p) {
        return true;
    }
    if list_glob_matches(excludes, p) {
        return false;
    }
    if list_glob_matches(includes, p) {
        return true;
    }
    match includes {
        Some(v) => v.len() == 0,
        None => true,
    }
}

/// An object that has a path relative to the project root.
pub trait IncludeExcludable {
    fn get_relative_path(&self) -> &String;
}

/// Decides whether a rule with these include and exclude patterns runs on
/// `object`: the decision of `should_select` on the path that the object reports.
pub fn should_run_test<T: IncludeExcludable>(
    object: &T,
    includes: Option<&Vec<String>>,
    excludes: Option<&Vec<String>>,
) -> (r: bool)
    ensures
        exists|p: &String|
            call_ensures(T::get_relative_path, (object,), p) && r == path_selected(
                p@,
                pattern_list(includes),
                pattern_list(excludes),
            ),
{
    let p = object.get_relative_path();
    should_select(p.as_str(), includes, excludes)
}

/// With no include and no exclude pattern, every path is selected.
pub proof fn lemma_default_allow(path: Seq<char>)
    ensures
        path_selected(path, seq![], seq![]),
{
}

/// An exact exclude of a path wins over every include pattern; an exact
/// include wins over every glob exclude, unless the path is excluded exactly too.
pub proof fn lemma_exact_precedence(path: Seq<char>, includes: Seq<Seq<char>>, excludes: Seq<Seq<char>>)
    ensures
        seq_contains(excludes, normalized_path(path)) ==> !path_selected(path, includes, excludes),
        seq_contains(includes, normalized_path(path)) && !seq_contains(excludes, normalized_path(path))
            ==> path_selected(path, includes, excludes),
{
}

} // verus!
